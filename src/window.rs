//! The sliding window of cell-voltage samples and its anomaly test.
//!
//! Voltages are held in millivolts. The test compares the window's population
//! statistics exactly, in integers: with `n` samples, sum `S` and sum of
//! squares `Q`, the variance is `(n·Q − S²) / n²` and the deviation of a sample
//! `x` from the mean is `(n·x − S) / n`.

use vstd::prelude::*;

verus! {

/// Most samples a window keeps.
pub const HISTORY_CAPACITY: usize = 10;

/// Fewest samples on which the anomaly test is made.
pub const MIN_SAMPLES: usize = 5;

/// Smallest standard deviation, in millivolts, above which a window may fault.
pub const MIN_STD_DEV_MV: u32 = 50;

/// Sum of the samples.
pub open spec fn sum(w: Seq<u32>) -> int
    decreases w.len(),
{
    if w.len() == 0 {
        0
    } else {
        sum(w.drop_last()) + w.last()
    }
}

/// Sum of the squares of the samples.
pub open spec fn sum_sq(w: Seq<u32>) -> int
    decreases w.len(),
{
    if w.len() == 0 {
        0
    } else {
        sum_sq(w.drop_last()) + w.last() * w.last()
    }
}

/// The population variance of the window, times the square of its length.
pub open spec fn spread(w: Seq<u32>) -> int {
    w.len() * sum_sq(w) - sum(w) * sum(w)
}

/// The deviation of `x` from the window's mean, times the window's length.
pub open spec fn deviation(w: Seq<u32>, x: u32) -> int {
    w.len() * x - sum(w)
}

/// The window's standard deviation exceeds the floor of `MIN_STD_DEV_MV`.
pub open spec fn dispersed(w: Seq<u32>) -> bool {
    spread(w) > (MIN_STD_DEV_MV * MIN_STD_DEV_MV) as int * (w.len() * w.len())
}

/// A window of enough samples, dispersed beyond the floor, from whose mean
/// `x` lies more than two standard deviations away.
pub open spec fn is_anomalous(w: Seq<u32>, x: u32) -> bool {
    &&& w.len() >= MIN_SAMPLES
    &&& dispersed(w)
    &&& deviation(w, x) * deviation(w, x) > 4 * spread(w)
}

/// The window after `v` is observed: the most recent `HISTORY_CAPACITY`
/// samples of the old window followed by `v`.
pub open spec fn slide(w: Seq<u32>, v: u32) -> Seq<u32> {
    let p = w.push(v);
    if p.len() > HISTORY_CAPACITY {
        p.subrange(p.len() - HISTORY_CAPACITY, p.len() as int)
    } else {
        p
    }
}

/// The window of a cell that has observed `samples`, oldest first, from empty.
pub open spec fn window_after(samples: Seq<u32>) -> Seq<u32>
    decreases samples.len(),
{
    if samples.len() == 0 {
        Seq::empty()
    } else {
        slide(window_after(samples.drop_last()), samples.last())
    }
}

/// The last `HISTORY_CAPACITY` of `samples`, or all of them if fewer.
pub open spec fn most_recent(samples: Seq<u32>) -> Seq<u32> {
    if samples.len() > HISTORY_CAPACITY {
        samples.subrange(samples.len() - HISTORY_CAPACITY, samples.len() as int)
    } else {
        samples
    }
}

/// A window holds exactly the most recent `HISTORY_CAPACITY` samples
/// observed, in the order observed: once full, each new sample evicts exactly
/// the oldest.
pub proof fn law_window_keeps_most_recent(samples: Seq<u32>)
    ensures
        window_after(samples) == most_recent(samples),
        window_after(samples).len() <= HISTORY_CAPACITY,
    decreases samples.len(),
{
    if samples.len() > 0 {
        law_window_keeps_most_recent(samples.drop_last());
        assert(window_after(samples) =~= most_recent(samples));
    }
}

/// No fault is reported while fewer than `MIN_SAMPLES` samples have been
/// observed, whatever they are.
pub proof fn law_no_fault_before_min_samples(samples: Seq<u32>)
    requires
        0 < samples.len() < MIN_SAMPLES,
    ensures
        !is_anomalous(window_after(samples), samples.last()),
{
    law_window_keeps_most_recent(samples);
}

/// A window whose standard deviation is within the floor never faults,
/// whatever the latest sample.
pub proof fn law_tight_window_never_faults(w: Seq<u32>, x: u32)
    requires
        !dispersed(w),
    ensures
        !is_anomalous(w, x),
{
}

/// Decides `is_anomalous` on a window of at most `HISTORY_CAPACITY` samples.
pub fn window_is_anomalous(w: &Vec<u32>, x: u32) -> (r: bool)
    requires
        w@.len() <= HISTORY_CAPACITY,
    ensures
        r == is_anomalous(w@, x),
{
    let n: usize = w.len();
    if n < MIN_SAMPLES {
        return false;
    }
    let ghost m: int = 0xFFFF_FFFF;
    let mut s: i128 = 0;
    let mut q: i128 = 0;
    let mut i: usize = 0;
    while i < n
        invariant
            i <= n,
            n == w@.len(),
            n <= HISTORY_CAPACITY,
            m == 0xFFFF_FFFF,
            s == sum(w@.take(i as int)),
            q == sum_sq(w@.take(i as int)),
            0 <= s <= i * m,
            0 <= q <= i * (m * m),
        decreases n - i,
    {
        let x_i: i128 = w[i] as i128;
        proof {
            assert(w@.take(i + 1).drop_last() =~= w@.take(i as int));
            assert(x_i * x_i <= m * m) by (nonlinear_arith)
                requires
                    0 <= x_i <= m,
            ;
        }
        s = s + x_i;
        q = q + x_i * x_i;
        i = i + 1;
    }
    assert(w@.take(n as int) =~= w@);
    let nn: i128 = n as i128;
    proof {
        assert(s <= 10 * m) by (nonlinear_arith)
            requires
                0 <= nn <= 10,
                m == 0xFFFF_FFFF,
                s <= nn * m,
        ;
        assert(nn * nn <= 100) by (nonlinear_arith)
            requires
                0 <= nn <= 10,
        ;
        assert(0 <= nn * q) by (nonlinear_arith)
            requires
                0 <= nn,
                0 <= q,
        ;
        assert(nn * q <= 10 * (10 * (m * m))) by (nonlinear_arith)
            requires
                0 <= nn <= 10,
                0 <= q <= nn * (m * m),
        ;
        assert(s * s <= (10 * m) * (10 * m)) by (nonlinear_arith)
            requires
                0 <= s <= 10 * m,
        ;
    }
    let sp: i128 = nn * q - s * s;
    let floor: i128 = (MIN_STD_DEV_MV * MIN_STD_DEV_MV) as i128 * (nn * nn);
    if sp <= floor {
        return false;
    }
    proof {
        assert(nn * x <= 10 * m) by (nonlinear_arith)
            requires
                0 <= nn <= 10,
                m == 0xFFFF_FFFF,
                0 <= x <= m,
        ;
        assert(0 <= nn * x) by (nonlinear_arith)
            requires
                0 <= nn,
                0 <= x,
        ;
    }
    let d: i128 = nn * (x as i128) - s;
    proof {
        assert(-(10 * m) <= d <= 10 * m) by (nonlinear_arith)
            requires
                d == nn * x - s,
                0 <= nn <= 10,
                0 <= x <= m,
                0 <= s <= 10 * m,
        ;
        assert(0 <= d * d <= 0x63_FFFF_FF38_0000_0064) by (nonlinear_arith)
            requires
                m == 0xFFFF_FFFF,
                -(10 * m) <= d <= 10 * m,
        ;
        assert(-0x63_FFFF_FF38_0000_0064 <= sp <= 0x63_FFFF_FF38_0000_0064) by (nonlinear_arith)
            requires
                m == 0xFFFF_FFFF,
                sp == nn * q - s * s,
                0 <= nn * q <= 10 * (10 * (m * m)),
                0 <= s * s <= (10 * m) * (10 * m),
        ;
    }
    d * d > 4 * sp
}

} // verus!
