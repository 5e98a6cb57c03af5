//! The two sensor kinds and the closed set of sensors over them.

use crate::random::{random_in_range, random_ratio};
use crate::text::{
    decimal, has_marker, lemma_decimal_digits, lemma_leading_marker, lemma_no_d_no_marker,
    push_decimal, push_volts, volts_text,
};
use crate::window::{is_anomalous, slide, window_is_anomalous, HISTORY_CAPACITY};
use vstd::prelude::*;
use vstd::string::StringExecFns;

verus! {

/// The low voltage, in millivolts, that an injected cell anomaly reads.
pub const ANOMALY_MV: u32 = 2500;

/// Lowest nominal cell voltage drawn, in millivolts.
pub const NOMINAL_LOW_MV: u32 = 3700;

/// Bound, in millivolts, below which nominal cell voltages are drawn.
pub const NOMINAL_HIGH_MV: u32 = 4100;

/// A fault is drawn with odds of `FAULT_NUMERATOR` in `FAULT_DENOMINATOR`.
pub const FAULT_NUMERATOR: u32 = 1;

/// See `FAULT_NUMERATOR`.
pub const FAULT_DENOMINATOR: u32 = 10;

/// Lowest perception confidence drawn, in percent.
pub const CONFIDENCE_LOW: u32 = 95;

/// Bound, in percent, below which perception confidences are drawn.
pub const CONFIDENCE_HIGH: u32 = 100;

/// The status of a cell whose reading is anomalous.
pub open spec fn cell_fault_text(mv: nat) -> Seq<char> {
    "DTC P0A80: Cell Imbalance Detected! ("@ + volts_text(mv) + "V)"@
}

/// The status of a cell whose reading is nominal.
pub open spec fn cell_nominal_text(mv: nat) -> Seq<char> {
    "Cell Voltage: "@ + volts_text(mv) + "V (Optimal)"@
}

/// The status of a cell whose window, after the reading `v`, is `w`.
pub open spec fn cell_status_text(w: Seq<u32>, v: u32) -> Seq<char> {
    if is_anomalous(w, v) {
        cell_fault_text(v as nat)
    } else {
        cell_nominal_text(v as nat)
    }
}

/// A cell's status is marked as a fault exactly when its reading is anomalous.
pub proof fn lemma_cell_status_marked(w: Seq<u32>, v: u32)
    ensures
        has_marker(cell_status_text(w, v)) == is_anomalous(w, v),
{
    let c = ((v as nat) + 5) / 10;
    let vt = volts_text(v as nat);
    if is_anomalous(w, v) {
        reveal_strlit("DTC P0A80: Cell Imbalance Detected! (");
        let s = cell_fault_text(v as nat);
        assert(s[0] == 'D' && s[1] == 'T' && s[2] == 'C');
        lemma_leading_marker(s);
    } else {
        reveal_strlit("Cell Voltage: ");
        reveal_strlit("V (Optimal)");
        lemma_decimal_digits(c / 100);
        let s = cell_nominal_text(v as nat);
        let head = "Cell Voltage: "@;
        let tail = "V (Optimal)"@;
        assert forall|i: int| 0 <= i < s.len() implies s[i] != 'D' by {
            if i < head.len() {
                assert(s[i] == head[i]);
            } else if i < head.len() + vt.len() {
                assert(s[i] == vt[i - head.len()]);
                let k = i - head.len();
                if k < decimal(c / 100).len() {
                    assert(vt[k] == decimal(c / 100)[k]);
                }
            } else {
                assert(s[i] == tail[i - head.len() - vt.len()]);
            }
        }
        lemma_no_d_no_marker(s);
    }
}

/// The status of a perception module that cannot see is marked as a fault.
pub proof fn lemma_occlusion_marked()
    ensures
        has_marker(occlusion_text()),
{
    reveal_strlit("DTC C1A67: Sensor Blind / Occluded");
    lemma_leading_marker(occlusion_text());
}

/// The reading of a cell: the anomalous voltage when one is injected, else the
/// nominal one.
pub open spec fn cell_sample(injected: bool, nominal_mv: u32) -> u32 {
    if injected {
        ANOMALY_MV
    } else {
        nominal_mv
    }
}

/// One evaluation of a cell took the window from `before` to `after` and
/// reported `r`, on a reading that the generator can give.
pub open spec fn cell_outcome(before: Seq<u32>, after: Seq<u32>, r: Seq<char>) -> bool {
    exists|v: u32|
        (v == ANOMALY_MV || NOMINAL_LOW_MV <= v < NOMINAL_HIGH_MV) && after == slide(before, v)
            && #[trigger] cell_status_text(after, v) == r
}

/// The status of a perception module that cannot see.
pub open spec fn occlusion_text() -> Seq<char> {
    "DTC C1A67: Sensor Blind / Occluded"@
}

/// The status of a perception module named `name` that tracks with the given
/// confidence in percent.
pub open spec fn tracking_text(name: Seq<char>, confidence: nat) -> Seq<char> {
    "Tracking ["@ + name + "]: Confidence "@ + decimal(confidence) + "%"@
}

/// The status of a perception module.
pub open spec fn adas_status_text(name: Seq<char>, occluded: bool, confidence: nat) -> Seq<char> {
    if occluded {
        occlusion_text()
    } else {
        tracking_text(name, confidence)
    }
}

/// A perception module named `name` reported `r`, on draws that the generator
/// can give.
pub open spec fn adas_outcome(name: Seq<char>, r: Seq<char>) -> bool {
    exists|occluded: bool, c: u32|
        CONFIDENCE_LOW <= c < CONFIDENCE_HIGH && #[trigger] adas_status_text(name, occluded, c as nat)
            == r
}

/// A battery cell: watches its own window of recent voltages for thermal runaway.
pub struct BmsCell {
    can_id: u32,
    history: Vec<u32>,
}

impl BmsCell {
    /// The cell's bus address.
    pub closed spec fn id(&self) -> u32 {
        self.can_id
    }

    /// The cell's recent samples in millivolts, oldest first.
    pub closed spec fn window(&self) -> Seq<u32> {
        self.history@
    }

    /// The window holds at most `HISTORY_CAPACITY` samples.
    pub open spec fn wf(&self) -> bool {
        self.window().len() <= HISTORY_CAPACITY
    }

    /// A cell at `can_id` that has seen no sample.
    pub fn new(can_id: u32) -> (r: Self)
        ensures
            r.wf(),
            r.id() == can_id,
            r.window() == Seq::<u32>::empty(),
    {
        BmsCell { can_id, history: Vec::new() }
    }

    pub fn get_id(&self) -> (r: u32)
        ensures
            r == self.id(),
    {
        self.can_id
    }

    /// The recent samples, oldest first.
    pub fn history(&self) -> (r: &Vec<u32>)
        ensures
            r@ == self.window(),
    {
        &self.history
    }

    /// Adds a sample to the window, evicting the oldest beyond capacity.
    pub fn record_sample(&mut self, v: u32)
        requires
            old(self).wf(),
        ensures
            final(self).wf(),
            final(self).id() == old(self).id(),
            final(self).window() == slide(old(self).window(), v),
    {
        if self.history.len() >= HISTORY_CAPACITY {
            self.history.remove(0);
        }
        self.history.push(v);
        assert(self.history@ =~= slide(old(self).window(), v));
    }

    /// Records a reading and tells whether it shows thermal runaway in the
    /// updated window.
    pub fn detect_thermal_runaway(&mut self, cell_voltage: u32) -> (r: bool)
        requires
            old(self).wf(),
        ensures
            final(self).wf(),
            final(self).id() == old(self).id(),
            final(self).window() == slide(old(self).window(), cell_voltage),
            r == is_anomalous(final(self).window(), cell_voltage),
            final(self).window().len() < crate::window::MIN_SAMPLES ==> !r,
    {
        self.record_sample(cell_voltage);
        window_is_anomalous(&self.history, cell_voltage)
    }

    /// One evaluation on given draws: `injected` stands for the draw that
    /// injects an anomaly, `nominal_mv` for the nominal voltage drawn.
    pub fn check_status_from(&mut self, injected: bool, nominal_mv: u32) -> (r: String)
        requires
            old(self).wf(),
        ensures
            final(self).wf(),
            final(self).id() == old(self).id(),
            final(self).window() == slide(old(self).window(), cell_sample(injected, nominal_mv)),
            r@ == cell_status_text(final(self).window(), cell_sample(injected, nominal_mv)),
            has_marker(r@) == is_anomalous(final(self).window(), cell_sample(injected, nominal_mv)),
    {
        proof {
            lemma_cell_status_marked(slide(self.window(), cell_sample(injected, nominal_mv)), cell_sample(injected, nominal_mv));
        }
        let voltage: u32 = if injected {
            ANOMALY_MV
        } else {
            nominal_mv
        };
        if self.detect_thermal_runaway(voltage) {
            let mut s = String::from_str("DTC P0A80: Cell Imbalance Detected! (");
            push_volts(&mut s, voltage);
            s.append("V)");
            s
        } else {
            let mut s = String::from_str("Cell Voltage: ");
            push_volts(&mut s, voltage);
            s.append("V (Optimal)");
            s
        }
    }

    /// One evaluation on fresh random draws.
    pub fn check_status(&mut self) -> (r: String)
        requires
            old(self).wf(),
        ensures
            final(self).wf(),
            final(self).id() == old(self).id(),
            cell_outcome(old(self).window(), final(self).window(), r@),
    {
        let injected = random_ratio(FAULT_NUMERATOR, FAULT_DENOMINATOR);
        let nominal_mv = random_in_range(NOMINAL_LOW_MV, NOMINAL_HIGH_MV);
        let r = self.check_status_from(injected, nominal_mv);
        assert(cell_status_text(self.window(), cell_sample(injected, nominal_mv)) == r@);
        r
    }
}

/// A perception computer: reports how confidently it tracks, or that it cannot see.
pub struct AdasModule {
    can_id: u32,
    module_name: String,
}

impl AdasModule {
    /// The module's bus address.
    pub closed spec fn id(&self) -> u32 {
        self.can_id
    }

    /// The module's display name.
    pub closed spec fn name(&self) -> Seq<char> {
        self.module_name@
    }

    pub fn new(can_id: u32, module_name: String) -> (r: Self)
        ensures
            r.id() == can_id,
            r.name() == module_name@,
    {
        AdasModule { can_id, module_name }
    }

    pub fn get_id(&self) -> (r: u32)
        ensures
            r == self.id(),
    {
        self.can_id
    }

    /// One evaluation on given draws: `occluded` stands for the draw of a
    /// fault, `confidence` for the percentage drawn.
    pub fn check_status_from(&self, occluded: bool, confidence: u32) -> (r: String)
        ensures
            r@ == adas_status_text(self.name(), occluded, confidence as nat),
            occluded ==> has_marker(r@),
    {
        proof {
            lemma_occlusion_marked();
        }
        if occluded {
            String::from_str("DTC C1A67: Sensor Blind / Occluded")
        } else {
            let mut s = String::from_str("Tracking [");
            s.append(self.module_name.as_str());
            s.append("]: Confidence ");
            push_decimal(&mut s, confidence);
            s.append("%");
            assert(s@ =~= tracking_text(self.name(), confidence as nat));
            s
        }
    }

    /// One evaluation on fresh random draws.
    pub fn check_status(&self) -> (r: String)
        ensures
            adas_outcome(self.name(), r@),
    {
        let occluded = random_ratio(FAULT_NUMERATOR, FAULT_DENOMINATOR);
        let confidence = random_in_range(CONFIDENCE_LOW, CONFIDENCE_HIGH);
        let r = self.check_status_from(occluded, confidence);
        assert(adas_status_text(self.name(), occluded, confidence as nat) == r@);
        r
    }
}

/// A sensor of either kind.
pub enum Sensor {
    Bms(BmsCell),
    Adas(AdasModule),
}

impl Sensor {
    /// The sensor's bus address.
    pub open spec fn id(&self) -> u32 {
        match self {
            Sensor::Bms(c) => c.id(),
            Sensor::Adas(a) => a.id(),
        }
    }

    /// A cell's window holds at most `HISTORY_CAPACITY` samples.
    pub open spec fn wf(&self) -> bool {
        match self {
            Sensor::Bms(c) => c.wf(),
            Sensor::Adas(_) => true,
        }
    }

    pub fn get_id(&self) -> (r: u32)
        ensures
            r == self.id(),
    {
        match self {
            Sensor::Bms(c) => c.get_id(),
            Sensor::Adas(a) => a.get_id(),
        }
    }

    /// One evaluation of the sensor on fresh random draws.
    pub fn check_status(&mut self) -> (r: String)
        requires
            old(self).wf(),
        ensures
            final(self).wf(),
            final(self).id() == old(self).id(),
            match (*old(self), *final(self)) {
                (Sensor::Bms(b), Sensor::Bms(a)) => cell_outcome(b.window(), a.window(), r@),
                (Sensor::Adas(b), Sensor::Adas(a)) => a == b && adas_outcome(b.name(), r@),
                _ => false,
            },
    {
        match self {
            Sensor::Bms(c) => c.check_status(),
            Sensor::Adas(a) => a.check_status(),
        }
    }
}

} // verus!
