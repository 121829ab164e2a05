//! Gyroscope calibration: a one-time stationary-bias estimator. It consumes a
//! fixed count of raw three-axis samples, rejects any sample whose deviation
//! from the current running average exceeds a fixed threshold on some axis
//! (transient electrical or bus noise), and keeps, per axis, the
//! integer-truncated mean of the accepted samples. The final running average
//! is the calibration offset, subtracted from every later reading.

use vstd::prelude::*;
use vstd::arithmetic::div_mod::{lemma_div_by_multiple, lemma_div_is_ordered, lemma_div_pos_is_pos};

verus! {

/// How many raw samples one calibration pass consumes (accepted or rejected).
pub const CAL_SAMPLE_COUNT: u32 = 1000;

/// A sample is rejected when, on some axis, it deviates from the current
/// running average by more than this many raw units.
pub const CAL_DEVIATION_LIMIT: i32 = 50;

/// Inter-sample delay of the calibration pass, in milliseconds, so that the
/// pass does not saturate the bus.
pub const CAL_DELAY_MS: u64 = 10;

/// One raw three-axis reading, in the device's own signed 16-bit units.
#[derive(Clone, Copy, PartialEq, Eq, Structural, Debug)]
pub struct Axes {
    pub x: i16,
    pub y: i16,
    pub z: i16,
}

/// A bias-corrected three-axis reading; widened so that subtracting the
/// offset can never wrap.
#[derive(Clone, Copy, PartialEq, Eq, Structural, Debug)]
pub struct AxesI32 {
    pub x: i32,
    pub y: i32,
    pub z: i32,
}

pub open spec fn abs_i(a: int) -> int {
    if a >= 0 {
        a
    } else {
        -a
    }
}

/// Integer division truncating toward zero (the machine's signed division),
/// defined for positive divisors.
pub open spec fn div_toward_zero(a: int, b: int) -> int {
    if a >= 0 {
        a / b
    } else {
        -((-a) / b)
    }
}

/// The running average of a sum of `n` accepted samples: their
/// integer-truncated mean, or zero while nothing has been accepted.
pub open spec fn running_mean(sum: int, n: int) -> int {
    if n <= 0 {
        0
    } else {
        div_toward_zero(sum, n)
    }
}

/// A sample is kept exactly when every axis lies within the deviation
/// threshold of the current running average.
pub open spec fn within_threshold(s: Axes, avg: Axes) -> bool {
    &&& abs_i(s.x - avg.x) <= CAL_DEVIATION_LIMIT
    &&& abs_i(s.y - avg.y) <= CAL_DEVIATION_LIMIT
    &&& abs_i(s.z - avg.z) <= CAL_DEVIATION_LIMIT
}

/// The state of one calibration pass.
#[derive(Clone, Copy, PartialEq, Eq, Structural, Debug)]
pub struct Calibrator {
    /// Samples consumed so far, accepted or rejected.
    pub taken: u32,
    /// Samples accepted into the sums.
    pub accepted: u32,
    pub sum_x: i64,
    pub sum_y: i64,
    pub sum_z: i64,
    /// Per-axis integer-truncated mean of the accepted samples.
    pub avg: Axes,
}

impl Calibrator {
    pub open spec fn initial() -> Calibrator {
        Calibrator {
            taken: 0,
            accepted: 0,
            sum_x: 0,
            sum_y: 0,
            sum_z: 0,
            avg: Axes { x: 0, y: 0, z: 0 },
        }
    }

    /// The pass's internal invariant: counters ordered and within budget,
    /// sums bounded by what `accepted` samples can contribute, and the
    /// average equal to the truncated mean of the sums.
    pub open spec fn wf(self) -> bool {
        &&& self.accepted <= self.taken
        &&& self.taken <= CAL_SAMPLE_COUNT
        &&& -32768 * (self.accepted as int) <= self.sum_x as int <= 32767 * (self.accepted as int)
        &&& -32768 * (self.accepted as int) <= self.sum_y as int <= 32767 * (self.accepted as int)
        &&& -32768 * (self.accepted as int) <= self.sum_z as int <= 32767 * (self.accepted as int)
        &&& self.avg.x == running_mean(self.sum_x as int, self.accepted as int)
        &&& self.avg.y == running_mean(self.sum_y as int, self.accepted as int)
        &&& self.avg.z == running_mean(self.sum_z as int, self.accepted as int)
    }

    /// Whether the pass has consumed its full sample budget.
    pub open spec fn complete(self) -> bool {
        self.taken == CAL_SAMPLE_COUNT
    }

    pub fn new() -> (c: Calibrator)
        ensures
            c == Calibrator::initial(),
            c.wf(),
    {
        Calibrator {
            taken: 0,
            accepted: 0,
            sum_x: 0,
            sum_y: 0,
            sum_z: 0,
            avg: Axes { x: 0, y: 0, z: 0 },
        }
    }

    pub fn is_complete(&self) -> (b: bool)
        ensures
            b == self.complete(),
    {
        self.taken == CAL_SAMPLE_COUNT
    }

    /// The final calibration offset; meaningful once the pass is complete.
    pub fn offset(&self) -> (r: Axes)
        ensures
            r == self.avg,
    {
        self.avg
    }

    /// Consume one raw sample: reject it outright when some axis deviates
    /// from the running average by more than the threshold, otherwise
    /// accumulate it and recompute the per-axis truncated mean.
    pub fn feed(&mut self, s: Axes)
        requires
            old(self).wf(),
            old(self).taken < CAL_SAMPLE_COUNT,
        ensures
            *final(self) == calib_step(*old(self), s),
            final(self).wf(),
            final(self).taken == old(self).taken + 1,
    {
        let dx = s.x as i32 - self.avg.x as i32;
        let dy = s.y as i32 - self.avg.y as i32;
        let dz = s.z as i32 - self.avg.z as i32;
        let within = -CAL_DEVIATION_LIMIT <= dx && dx <= CAL_DEVIATION_LIMIT
            && -CAL_DEVIATION_LIMIT <= dy && dy <= CAL_DEVIATION_LIMIT
            && -CAL_DEVIATION_LIMIT <= dz && dz <= CAL_DEVIATION_LIMIT;
        assert(within == within_threshold(s, self.avg));
        if within {
            self.taken = self.taken + 1;
            self.accepted = self.accepted + 1;
            self.sum_x = self.sum_x + s.x as i64;
            self.sum_y = self.sum_y + s.y as i64;
            self.sum_z = self.sum_z + s.z as i64;
            let ax = mean_i16(self.sum_x, self.accepted);
            let ay = mean_i16(self.sum_y, self.accepted);
            let az = mean_i16(self.sum_z, self.accepted);
            self.avg = Axes { x: ax, y: ay, z: az };
        } else {
            self.taken = self.taken + 1;
        }
    }
}

/// One step of the calibration filter, as a function of the current state and
/// the incoming raw sample.
pub open spec fn calib_step(c: Calibrator, s: Axes) -> Calibrator {
    if within_threshold(s, c.avg) {
        let acc = (c.accepted + 1) as u32;
        let sx = (c.sum_x + s.x) as i64;
        let sy = (c.sum_y + s.y) as i64;
        let sz = (c.sum_z + s.z) as i64;
        Calibrator {
            taken: (c.taken + 1) as u32,
            accepted: acc,
            sum_x: sx,
            sum_y: sy,
            sum_z: sz,
            avg: Axes {
                x: running_mean(sx as int, acc as int) as i16,
                y: running_mean(sy as int, acc as int) as i16,
                z: running_mean(sz as int, acc as int) as i16,
            },
        }
    } else {
        Calibrator {
            taken: (c.taken + 1) as u32,
            accepted: c.accepted,
            sum_x: c.sum_x,
            sum_y: c.sum_y,
            sum_z: c.sum_z,
            avg: c.avg,
        }
    }
}

/// The calibration filter folded over a whole sequence of raw samples.
pub open spec fn calib_run(c: Calibrator, ss: Seq<Axes>) -> Calibrator
    decreases ss.len(),
{
    if ss.len() == 0 {
        c
    } else {
        calib_step(calib_run(c, ss.drop_last()), ss.last())
    }
}

/// The named axis of a sample: 0 for x, 1 for y, anything else for z.
pub open spec fn axis_of(s: Axes, a: int) -> int {
    if a == 0 {
        s.x as int
    } else if a == 1 {
        s.y as int
    } else {
        s.z as int
    }
}

/// A quiet sample: every axis within `bound` of zero.
pub open spec fn small_sample(s: Axes, bound: int) -> bool {
    &&& abs_i(s.x as int) <= bound
    &&& abs_i(s.y as int) <= bound
    &&& abs_i(s.z as int) <= bound
}

/// A spike: some axis at least `floor` away from zero.
pub open spec fn spike_sample(s: Axes, floor: int) -> bool {
    ||| abs_i(s.x as int) >= floor
    ||| abs_i(s.y as int) >= floor
    ||| abs_i(s.z as int) >= floor
}

/// How many samples of the sequence are quiet.
pub open spec fn small_count(ss: Seq<Axes>, bound: int) -> int
    decreases ss.len(),
{
    if ss.len() == 0 {
        0
    } else {
        small_count(ss.drop_last(), bound) + if small_sample(ss.last(), bound) {
            1int
        } else {
            0int
        }
    }
}

/// The per-axis sum of the quiet samples of the sequence.
pub open spec fn small_sum(ss: Seq<Axes>, bound: int, a: int) -> int
    decreases ss.len(),
{
    if ss.len() == 0 {
        0
    } else {
        small_sum(ss.drop_last(), bound, a) + if small_sample(ss.last(), bound) {
            axis_of(ss.last(), a)
        } else {
            0int
        }
    }
}

/// One filter step keeps the state well formed and consumes one sample.
pub proof fn lemma_calib_step_wf(c: Calibrator, s: Axes)
    requires
        c.wf(),
        c.taken < CAL_SAMPLE_COUNT,
    ensures
        calib_step(c, s).wf(),
        calib_step(c, s).taken == c.taken + 1,
{
    if within_threshold(s, c.avg) {
        let acc1 = c.accepted as int + 1;
        lemma_mean_in_range(c.sum_x as int + s.x as int, acc1, -32768, 32767);
        lemma_mean_in_range(c.sum_y as int + s.y as int, acc1, -32768, 32767);
        lemma_mean_in_range(c.sum_z as int + s.z as int, acc1, -32768, 32767);
    }
}

proof fn lemma_convergence_rec(ss: Seq<Axes>, bound: int, floor: int)
    requires
        0 <= bound <= 32767,
        2 * bound <= CAL_DEVIATION_LIMIT,
        floor > bound + CAL_DEVIATION_LIMIT,
        ss.len() <= CAL_SAMPLE_COUNT,
        forall|i: int|
            0 <= i < ss.len() ==> small_sample(#[trigger] ss[i], bound) || spike_sample(
                ss[i],
                floor,
            ),
    ensures
        ({
            let c = calib_run(Calibrator::initial(), ss);
            &&& c.taken == ss.len()
            &&& c.accepted == small_count(ss, bound)
            &&& c.sum_x == small_sum(ss, bound, 0)
            &&& c.sum_y == small_sum(ss, bound, 1)
            &&& c.sum_z == small_sum(ss, bound, 2)
            &&& abs_i(small_sum(ss, bound, 0)) <= bound * small_count(ss, bound)
            &&& abs_i(small_sum(ss, bound, 1)) <= bound * small_count(ss, bound)
            &&& abs_i(small_sum(ss, bound, 2)) <= bound * small_count(ss, bound)
            &&& c.avg.x == running_mean(small_sum(ss, bound, 0), small_count(ss, bound))
            &&& c.avg.y == running_mean(small_sum(ss, bound, 1), small_count(ss, bound))
            &&& c.avg.z == running_mean(small_sum(ss, bound, 2), small_count(ss, bound))
            &&& abs_i(c.avg.x as int) <= bound
            &&& abs_i(c.avg.y as int) <= bound
            &&& abs_i(c.avg.z as int) <= bound
            &&& c.wf()
        }),
    decreases ss.len(),
{
    if ss.len() == 0 {
    } else {
        let prefix = ss.drop_last();
        let s = ss.last();
        assert forall|i: int| 0 <= i < prefix.len() implies small_sample(
            #[trigger] prefix[i],
            bound,
        ) || spike_sample(prefix[i], floor) by {
            assert(prefix[i] == ss[i]);
        }
        lemma_convergence_rec(prefix, bound, floor);
        let c0 = calib_run(Calibrator::initial(), prefix);
        let c = calib_step(c0, s);
        let n0 = small_count(prefix, bound);
        if small_sample(s, bound) {
            assert(within_threshold(s, c0.avg));
            let n1 = n0 + 1;
            assert(bound * (n0 + 1) == bound * n0 + bound) by (nonlinear_arith);
            assert((-bound) * (n0 + 1) == (-bound) * n0 + (-bound)) by (nonlinear_arith);
            assert((-bound) * n0 == -(bound * n0)) by (nonlinear_arith);
            assert((-bound) * n1 == -(bound * n1)) by (nonlinear_arith)
                requires
                    n1 == n0 + 1,
            ;
            let sx = small_sum(prefix, bound, 0) + s.x;
            let sy = small_sum(prefix, bound, 1) + s.y;
            let sz = small_sum(prefix, bound, 2) + s.z;
            lemma_mean_in_range(sx, n1, -bound, bound);
            lemma_mean_in_range(sy, n1, -bound, bound);
            lemma_mean_in_range(sz, n1, -bound, bound);
            assert(bound * n1 <= 32767 * n1 && -32768 * n1 <= -bound * n1) by (nonlinear_arith)
                requires
                    0 <= bound <= 32767,
                    0 <= n1,
            ;
        } else {
            assert(spike_sample(s, floor));
            assert(!within_threshold(s, c0.avg));
        }
    }
}

/// Calibration convergence: when every raw sample is either quiet (each axis
/// within `bound` of zero, with deviations of quiet samples from a quiet
/// running average never able to cross the rejection threshold) or a spike
/// (some axis at least `floor` from zero, far enough to always cross it), the
/// pass accepts exactly the quiet samples, and the resulting offset is, per
/// axis, the integer-truncated mean of the quiet samples alone.
pub proof fn lemma_calibration_convergence(ss: Seq<Axes>, bound: int, floor: int)
    requires
        0 <= bound <= 32767,
        2 * bound <= CAL_DEVIATION_LIMIT,
        floor > bound + CAL_DEVIATION_LIMIT,
        ss.len() <= CAL_SAMPLE_COUNT,
        forall|i: int|
            0 <= i < ss.len() ==> small_sample(#[trigger] ss[i], bound) || spike_sample(
                ss[i],
                floor,
            ),
    ensures
        ({
            let c = calib_run(Calibrator::initial(), ss);
            &&& c.taken == ss.len()
            &&& c.accepted == small_count(ss, bound)
            &&& c.avg.x == running_mean(small_sum(ss, bound, 0), small_count(ss, bound))
            &&& c.avg.y == running_mean(small_sum(ss, bound, 1), small_count(ss, bound))
            &&& c.avg.z == running_mean(small_sum(ss, bound, 2), small_count(ss, bound))
        }),
{
    lemma_convergence_rec(ss, bound, floor);
}

/// Run one whole calibration pass over raw samples already in hand.
pub fn calibrate(samples: &Vec<Axes>) -> (c: Calibrator)
    requires
        samples.len() <= CAL_SAMPLE_COUNT,
    ensures
        c == calib_run(Calibrator::initial(), samples@),
        c.wf(),
        c.taken == samples.len(),
{
    let mut c = Calibrator::new();
    let mut i: usize = 0;
    while i < samples.len()
        invariant
            i <= samples.len(),
            samples.len() <= CAL_SAMPLE_COUNT,
            c == calib_run(Calibrator::initial(), samples@.subrange(0, i as int)),
            c.wf(),
            c.taken == i,
        decreases samples.len() - i,
    {
        proof {
            assert(samples@.subrange(0, i + 1) =~= samples@.subrange(0, i as int).push(
                samples@[i as int],
            ));
            assert(samples@.subrange(0, i + 1).drop_last() =~= samples@.subrange(0, i as int));
        }
        c.feed(samples[i]);
        i = i + 1;
    }
    proof {
        assert(samples@.subrange(0, samples.len() as int) =~= samples@);
    }
    c
}

/// The truncated mean fits in the range of the summands.
proof fn lemma_mean_in_range(sum: int, n: int, lo: int, hi: int)
    requires
        n > 0,
        lo <= 0,
        0 <= hi,
        lo * n <= sum <= hi * n,
    ensures
        lo <= running_mean(sum, n) <= hi,
{
    if sum >= 0 {
        lemma_div_pos_is_pos(sum, n);
        lemma_div_is_ordered(sum, hi * n, n);
        lemma_div_by_multiple(hi, n);
    } else {
        lemma_div_pos_is_pos(-sum, n);
        assert((-lo) * n == -(lo * n)) by (nonlinear_arith);
        lemma_div_is_ordered(-sum, (-lo) * n, n);
        lemma_div_by_multiple(-lo, n);
    }
}

/// Signed division truncating toward zero, for a positive divisor, computed
/// through unsigned machine division.
fn mean_i16(sum: i64, n: u32) -> (m: i16)
    requires
        n > 0,
        -32768 * (n as int) <= sum as int <= 32767 * (n as int),
    ensures
        m as int == running_mean(sum as int, n as int),
{
    proof {
        lemma_mean_in_range(sum as int, n as int, -32768, 32767);
    }
    if sum >= 0 {
        let q = (sum as u64) / (n as u64);
        assert(q <= 32767);
        q as i16
    } else {
        let mag = ((-sum) as u64) / (n as u64);
        assert(mag <= 32768);
        let neg: i32 = -(mag as i32);
        assert(-32768 <= neg <= 0);
        neg as i16
    }
}

} // verus!
