//! The aggregate that the polling loops publish into: the latest status of
//! each sensor and a bounded log of recent faults.

use crate::random::random_in_range;
use crate::text::{has_marker, hex, is_fault, push_hex};
use vstd::prelude::*;
use vstd::string::StringExecFns;

verus! {

/// Most fault messages the trouble log keeps.
pub const LOG_CAPACITY: usize = 20;

/// Bus address of the first battery cell.
pub const CELL_A_ID: u32 = 0x186A;

/// Bus address of the front radar.
pub const RADAR_ID: u32 = 0x2901;

/// Bus address of the second battery cell.
pub const CELL_B_ID: u32 = 0x186B;

/// Bus address of the lane camera.
pub const CAMERA_ID: u32 = 0x2902;

/// Shortest pause between two polls of a sensor, in milliseconds.
pub const POLL_DELAY_LOW_MS: u32 = 500;

/// Bound, in milliseconds, below which pauses between polls are drawn.
pub const POLL_DELAY_HIGH_MS: u32 = 1500;

/// The status every sensor shows before its first evaluation.
pub open spec fn initial_status() -> Seq<char> {
    "Initializing..."@
}

/// The bus addresses known from startup, in display order.
pub open spec fn startup_ids() -> Seq<u32> {
    seq![CELL_A_ID, RADAR_ID, CELL_B_ID, CAMERA_ID]
}

/// The last `LOG_CAPACITY` messages of `log`.
pub open spec fn keep_recent(log: Seq<Seq<char>>) -> Seq<Seq<char>> {
    if log.len() > LOG_CAPACITY {
        log.subrange(log.len() - LOG_CAPACITY, log.len() as int)
    } else {
        log
    }
}

/// The trouble log after `msg` is appended.
pub open spec fn appended(log: Seq<Seq<char>>, msg: Seq<char>) -> Seq<Seq<char>> {
    keep_recent(log.push(msg))
}

/// The status entries after `id` reports `msg`: the entry of `id`, if any,
/// takes `msg`, and every other entry stays.
pub open spec fn updated(entries: Seq<(u32, Seq<char>)>, id: u32, msg: Seq<char>) -> Seq<
    (u32, Seq<char>),
> {
    entries.map_values(|e: (u32, Seq<char>)| if e.0 == id { (e.0, msg) } else { e })
}

/// No two entries share a bus address.
pub open spec fn unique_ids(entries: Seq<(u32, Seq<char>)>) -> bool {
    forall|i: int, j: int|
        0 <= i < entries.len() && 0 <= j < entries.len() && i != j ==> #[trigger] entries[i].0
            != #[trigger] entries[j].0
}

/// The line that the trouble log holds for a fault `status` of sensor `id`.
pub open spec fn log_line(id: u32, status: Seq<char>) -> Seq<char> {
    "[CAN ID 0x"@ + hex(id as nat) + "] "@ + status
}

/// The trouble log after each of `msgs` is appended in turn.
pub open spec fn appended_all(log: Seq<Seq<char>>, msgs: Seq<Seq<char>>) -> Seq<Seq<char>>
    decreases msgs.len(),
{
    if msgs.len() == 0 {
        log
    } else {
        appended(appended_all(log, msgs.drop_last()), msgs.last())
    }
}

/// The status entries after each of `ups`, as (bus address, message), is
/// reported in turn.
pub open spec fn updated_all(entries: Seq<(u32, Seq<char>)>, ups: Seq<(u32, Seq<char>)>) -> Seq<
    (u32, Seq<char>),
>
    decreases ups.len(),
{
    if ups.len() == 0 {
        entries
    } else {
        updated(updated_all(entries, ups.drop_last()), ups.last().0, ups.last().1)
    }
}

/// The last message that `ups` reports for `id`, or `default` if none.
pub open spec fn last_message(ups: Seq<(u32, Seq<char>)>, id: u32, default: Seq<char>) -> Seq<char>
    decreases ups.len(),
{
    if ups.len() == 0 {
        default
    } else if ups.last().0 == id {
        ups.last().1
    } else {
        last_message(ups.drop_last(), id, default)
    }
}

/// However many messages are appended, the trouble log holds at most
/// `LOG_CAPACITY` of them: the most recent, in the order appended.
pub proof fn law_log_keeps_most_recent(log: Seq<Seq<char>>, msgs: Seq<Seq<char>>)
    requires
        log.len() <= LOG_CAPACITY,
    ensures
        appended_all(log, msgs) == keep_recent(log + msgs),
        appended_all(log, msgs).len() <= LOG_CAPACITY,
    decreases msgs.len(),
{
    if msgs.len() > 0 {
        law_log_keeps_most_recent(log, msgs.drop_last());
        assert((log + msgs.drop_last()).push(msgs.last()) =~= log + msgs);
        assert(appended_all(log, msgs) =~= keep_recent(log + msgs));
    } else {
        assert(log + msgs =~= log);
    }
}

/// A report from an address outside the known set changes no entry and adds
/// none.
pub proof fn law_unknown_id_changes_nothing(entries: Seq<(u32, Seq<char>)>, id: u32, msg: Seq<char>)
    requires
        forall|i: int| 0 <= i < entries.len() ==> #[trigger] entries[i].0 != id,
    ensures
        updated(entries, id, msg) == entries,
{
    assert(updated(entries, id, msg) =~= entries);
}

/// Whatever the interleaving of reports from the sensors, no report is lost:
/// each entry ends with the last message reported for its address, and the
/// set of entries keeps its size and addresses.
pub proof fn law_last_report_wins(entries: Seq<(u32, Seq<char>)>, ups: Seq<(u32, Seq<char>)>)
    ensures
        updated_all(entries, ups).len() == entries.len(),
        forall|k: int|
            0 <= k < entries.len() ==> #[trigger] updated_all(entries, ups)[k] == (
            entries[k].0,
            last_message(ups, entries[k].0, entries[k].1),
        ),
    decreases ups.len(),
{
    if ups.len() > 0 {
        law_last_report_wins(entries, ups.drop_last());
    }
}

/// Latest status per sensor and the recent faults.
pub struct AppState {
    logs: Vec<String>,
    sensor_status: Vec<(u32, String)>,
}

impl AppState {
    /// The trouble log, oldest first.
    pub closed spec fn log_view(&self) -> Seq<Seq<char>> {
        self.logs@.map_values(|s: String| s@)
    }

    /// The status entries as (bus address, message), in display order.
    pub closed spec fn status_view(&self) -> Seq<(u32, Seq<char>)> {
        self.sensor_status@.map_values(|e: (u32, String)| (e.0, e.1@))
    }

    /// The log is bounded and the bus addresses are distinct.
    pub open spec fn wf(&self) -> bool {
        &&& self.log_view().len() <= LOG_CAPACITY
        &&& unique_ids(self.status_view())
    }

    /// The state at startup: every known sensor initializing, no fault logged.
    pub fn new() -> (r: Self)
        ensures
            r.wf(),
            r.log_view() == Seq::<Seq<char>>::empty(),
            r.status_view().len() == startup_ids().len(),
            forall|i: int|
                0 <= i < startup_ids().len() ==> #[trigger] r.status_view()[i] == (
                startup_ids()[i],
                initial_status(),
            ),
    {
        let mut sensor_status: Vec<(u32, String)> = Vec::new();
        sensor_status.push((CELL_A_ID, String::from_str("Initializing...")));
        sensor_status.push((RADAR_ID, String::from_str("Initializing...")));
        sensor_status.push((CELL_B_ID, String::from_str("Initializing...")));
        sensor_status.push((CAMERA_ID, String::from_str("Initializing...")));
        let r = AppState { logs: Vec::new(), sensor_status };
        assert(r.log_view() =~= Seq::<Seq<char>>::empty());
        r
    }

    /// Appends a fault message, evicting the oldest beyond `LOG_CAPACITY`.
    pub fn add_log(&mut self, msg: String)
        requires
            old(self).wf(),
        ensures
            final(self).wf(),
            final(self).log_view() == appended(old(self).log_view(), msg@),
            final(self).status_view() == old(self).status_view(),
    {
        let ghost m = msg@;
        self.logs.push(msg);
        if self.logs.len() > LOG_CAPACITY {
            self.logs.remove(0);
        }
        assert(self.log_view() =~= appended(old(self).log_view(), m));
    }

    /// Sets the status of sensor `id`; an address outside the known set
    /// changes nothing.
    pub fn update_sensor(&mut self, id: u32, status: String)
        requires
            old(self).wf(),
        ensures
            final(self).wf(),
            final(self).status_view() == updated(old(self).status_view(), id, status@),
            final(self).log_view() == old(self).log_view(),
    {
        let ghost m = status@;
        let n: usize = self.sensor_status.len();
        let mut i: usize = 0;
        while i < n
            invariant
                i <= n,
                n == self.sensor_status@.len(),
                *self == *old(self),
                old(self).wf(),
                m == status@,
                forall|j: int| 0 <= j < i ==> #[trigger] self.sensor_status@[j].0 != id,
            decreases n - i,
        {
            if self.sensor_status[i].0 == id {
                self.sensor_status.set(i, (id, status));
                proof {
                    let old_v = old(self).status_view();
                    assert forall|j: int| 0 <= j < old_v.len() && j != i implies old_v[j].0 != id by {
                        assert(old_v[j].0 == old(self).sensor_status@[j].0);
                        assert(old_v[i as int].0 == id);
                    }
                    assert forall|k: int| 0 <= k < old_v.len() implies #[trigger] self.status_view()[k]
                        == updated(old_v, id, m)[k] by {
                        if k != i {
                            assert(self.sensor_status@[k] == old(self).sensor_status@[k]);
                        }
                    }
                    assert(self.status_view() =~= updated(old_v, id, m));
                    assert(self.log_view() =~= old(self).log_view());
                }
                return;
            }
            i = i + 1;
        }
        assert(self.status_view() =~= updated(old(self).status_view(), id, m));
    }

    /// Publishes an evaluation of sensor `id`: its status entry takes `status`
    /// and, where `status` denotes a fault, the trouble log gains a line for
    /// it. Tells whether it was a fault.
    pub fn publish(&mut self, id: u32, status: &String) -> (fault: bool)
        requires
            old(self).wf(),
        ensures
            final(self).wf(),
            fault == has_marker(status@),
            final(self).status_view() == updated(old(self).status_view(), id, status@),
            final(self).log_view() == if fault {
                appended(old(self).log_view(), log_line(id, status@))
            } else {
                old(self).log_view()
            },
    {
        self.update_sensor(id, status.clone());
        let fault = is_fault(status);
        if fault {
            self.add_log(format_log_line(id, status));
        }
        fault
    }

    /// The trouble log, oldest first.
    pub fn logs(&self) -> (r: &Vec<String>)
        ensures
            r@.map_values(|s: String| s@) == self.log_view(),
    {
        &self.logs
    }

    /// The status entries, in display order.
    pub fn sensor_status(&self) -> (r: &Vec<(u32, String)>)
        ensures
            r@.map_values(|e: (u32, String)| (e.0, e.1@)) == self.status_view(),
    {
        &self.sensor_status
    }
}

/// The trouble-log line for a fault `status` of sensor `id`: the address in
/// upper-case hexadecimal, then the message.
pub fn format_log_line(id: u32, status: &String) -> (r: String)
    ensures
        r@ == log_line(id, status@),
{
    let mut s = String::from_str("[CAN ID 0x");
    push_hex(&mut s, id);
    s.append("] ");
    s.append(status.as_str());
    s
}

/// Draws the pause before a sensor's next poll, in milliseconds.
pub fn poll_delay_ms() -> (r: u32)
    ensures
        POLL_DELAY_LOW_MS <= r < POLL_DELAY_HIGH_MS,
{
    random_in_range(POLL_DELAY_LOW_MS, POLL_DELAY_HIGH_MS)
}

} // verus!
