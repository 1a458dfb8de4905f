//! Static-bias calibration for a three-axis angular-rate sensor.
//!
//! A stationary gyroscope reports a small non-zero rate (its bias). Before
//! integration starts, a fixed number of samples is averaged per axis; the
//! resulting offsets are subtracted from every later reading.

use vstd::prelude::*;
use vstd::arithmetic::div_mod::{lemma_div_multiples_vanish, lemma_div_is_ordered};

verus! {

/// The number of samples one boot-time calibration run consumes.
pub const CALIBRATION_SAMPLE_COUNT: u32 = 3000;

/// One three-axis angular-rate reading, in microradians per second per axis.
#[derive(Clone, Copy, Debug, PartialEq, Eq, Structural)]
pub struct RateSample {
    pub x: i32,
    pub y: i32,
    pub z: i32,
}

/// The per-axis static offsets of the sensor, in microradians per second.
/// Produced once, by a completed calibration run, and never mutated after.
#[derive(Clone, Copy, Debug, PartialEq, Eq, Structural)]
pub struct BiasVector {
    pub x: i32,
    pub y: i32,
    pub z: i32,
}

/// Sum of the x components of a sample sequence.
pub open spec fn sum_x(s: Seq<RateSample>) -> int
    decreases s.len(),
{
    if s.len() == 0 {
        0
    } else {
        sum_x(s.drop_last()) + s.last().x
    }
}

/// Sum of the y components of a sample sequence.
pub open spec fn sum_y(s: Seq<RateSample>) -> int
    decreases s.len(),
{
    if s.len() == 0 {
        0
    } else {
        sum_y(s.drop_last()) + s.last().y
    }
}

/// Sum of the z components of a sample sequence.
pub open spec fn sum_z(s: Seq<RateSample>) -> int
    decreases s.len(),
{
    if s.len() == 0 {
        0
    } else {
        sum_z(s.drop_last()) + s.last().z
    }
}

/// Integer average rounded toward zero, the quotient a machine division of
/// a signed sum by a positive count produces.
pub open spec fn avg_toward_zero(sum: int, n: int) -> int
    recommends n > 0,
{
    if sum >= 0 {
        sum / n
    } else {
        -((-sum) / n)
    }
}

/// Accumulates a fixed number of rate samples and averages them into a
/// [`BiasVector`]. Partial calibration is never handed out: the average is
/// only available once exactly `target` samples have been consumed.
pub struct BiasEstimator {
    target: u32,
    count: u32,
    acc_x: i64,
    acc_y: i64,
    acc_z: i64,
    history: Ghost<Seq<RateSample>>,
}

impl BiasEstimator {
    /// The number of samples a full calibration run consumes.
    pub closed spec fn target(self) -> int {
        self.target as int
    }

    /// The samples consumed so far, oldest first.
    pub closed spec fn samples(self) -> Seq<RateSample> {
        self.history@
    }

    /// The accumulators hold exactly the component sums of the consumed
    /// samples, the run is over a positive sample count, and it never holds
    /// more samples than the count asks for.
    pub closed spec fn well_formed(self) -> bool {
        &&& self.target >= 1
        &&& self.history@.len() == self.count
        &&& self.count <= self.target
        &&& self.acc_x == sum_x(self.history@)
        &&& self.acc_y == sum_y(self.history@)
        &&& self.acc_z == sum_z(self.history@)
        &&& -(self.count as int) * 0x8000_0000 <= self.acc_x <= (self.count as int) * 0x7fff_ffff
        &&& -(self.count as int) * 0x8000_0000 <= self.acc_y <= (self.count as int) * 0x7fff_ffff
        &&& -(self.count as int) * 0x8000_0000 <= self.acc_z <= (self.count as int) * 0x7fff_ffff
    }

    /// Starts a calibration run over `target` samples. A run over zero
    /// samples is undefined by design and is rejected here, before any
    /// sensor traffic happens.
    pub fn new(target: u32) -> (r: Result<BiasEstimator, crate::ConfigError>)
        ensures
            target == 0 <==> r is Err,
            r is Err ==> r == Result::<BiasEstimator, crate::ConfigError>::Err(
                crate::ConfigError::ZeroSampleCount,
            ),
            r is Ok ==> {
                &&& r->Ok_0.well_formed()
                &&& r->Ok_0.target() == target
                &&& r->Ok_0.samples() == Seq::<RateSample>::empty()
            },
    {
        if target == 0 {
            Err(crate::ConfigError::ZeroSampleCount)
        } else {
            Ok(BiasEstimator {
                target,
                count: 0,
                acc_x: 0,
                acc_y: 0,
                acc_z: 0,
                history: Ghost(Seq::empty()),
            })
        }
    }

    /// True once the run has consumed all the samples it asked for.
    pub fn is_complete(&self) -> (r: bool)
        requires
            self.well_formed(),
        ensures
            r <==> self.samples().len() == self.target(),
    {
        self.count == self.target
    }

    /// Consumes one sample, accumulating each axis independently.
    pub fn add_sample(&mut self, s: RateSample)
        requires
            old(self).well_formed(),
            old(self).samples().len() < old(self).target(),
        ensures
            final(self).well_formed(),
            final(self).target() == old(self).target(),
            final(self).samples() == old(self).samples().push(s),
    {
        proof {
            assert(self.history@.push(s).drop_last() =~= self.history@);
        }
        self.acc_x = self.acc_x + s.x as i64;
        self.acc_y = self.acc_y + s.y as i64;
        self.acc_z = self.acc_z + s.z as i64;
        self.count = self.count + 1;
        self.history = Ghost(self.history@.push(s));
    }

    /// Averages the accumulated sums into the bias vector, one truncating
    /// division per axis. Only a complete run may be averaged: partial
    /// calibration is never applied.
    pub fn finish(&self) -> (b: BiasVector)
        requires
            self.well_formed(),
            self.samples().len() == self.target(),
        ensures
            b.x == avg_toward_zero(sum_x(self.samples()), self.target()),
            b.y == avg_toward_zero(sum_y(self.samples()), self.target()),
            b.z == avg_toward_zero(sum_z(self.samples()), self.target()),
    {
        BiasVector {
            x: div_toward_zero(self.acc_x, self.target),
            y: div_toward_zero(self.acc_y, self.target),
            z: div_toward_zero(self.acc_z, self.target),
        }
    }
}

/// Divides an axis accumulator by the sample count, rounding toward zero,
/// and proves the quotient fits back into the sensor's component range.
fn div_toward_zero(sum: i64, n: u32) -> (q: i32)
    requires
        n >= 1,
        -(n as int) * 0x8000_0000 <= sum <= (n as int) * 0x7fff_ffff,
    ensures
        q == avg_toward_zero(sum as int, n as int),
{
    proof {
        lemma_avg_in_component_range(sum as int, n as int, n as int);
    }
    if sum >= 0 {
        let q: u64 = (sum as u64) / (n as u64);
        assert(q == sum as int / n as int);
        q as i32
    } else {
        let mag: u64 = (-sum) as u64;
        let q: u64 = mag / (n as u64);
        assert(q == (-(sum as int)) / n as int);
        (-(q as i64)) as i32
    }
}

/// The average of values drawn from the signed 32-bit range stays in that
/// range, whatever mix of signs the values had.
proof fn lemma_avg_in_component_range(sum: int, n: int, bound: int)
    requires
        n >= 1,
        bound <= n,
        -bound * 0x8000_0000 <= sum <= bound * 0x7fff_ffff,
    ensures
        -0x8000_0000 <= avg_toward_zero(sum, n) <= 0x7fff_ffff,
{
    if sum >= 0 {
        assert(bound * 0x7fff_ffff <= n * 0x7fff_ffff) by (nonlinear_arith)
            requires bound <= n;
        lemma_div_is_ordered(sum, n * 0x7fff_ffff, n);
        lemma_div_multiples_vanish(0x7fff_ffff, n);
        assert(sum / n >= 0) by (nonlinear_arith)
            requires sum >= 0, n >= 1;
    } else {
        assert(-sum <= bound * 0x8000_0000 <= n * 0x8000_0000) by (nonlinear_arith)
            requires bound <= n, -bound * 0x8000_0000 <= sum;
        lemma_div_is_ordered(-sum, n * 0x8000_0000, n);
        lemma_div_multiples_vanish(0x8000_0000, n);
        assert((-sum) / n >= 0) by (nonlinear_arith)
            requires sum < 0, n >= 1;
    }
}

/// Sum of a constant sequence: if every sample equals `b`, the component
/// sums are the sample count times the components of `b`.
proof fn lemma_sum_of_constant(s: Seq<RateSample>, b: RateSample)
    requires
        forall|i: int| 0 <= i < s.len() ==> s[i] == b,
    ensures
        sum_x(s) == s.len() * b.x,
        sum_y(s) == s.len() * b.y,
        sum_z(s) == s.len() * b.z,
    decreases s.len(),
{
    if s.len() == 0 {
    } else {
        lemma_sum_of_constant(s.drop_last(), b);
        assert(s.last() == b);
        assert((s.len() - 1) * b.x + b.x == s.len() * b.x) by (nonlinear_arith);
        assert((s.len() - 1) * b.y + b.y == s.len() * b.y) by (nonlinear_arith);
        assert((s.len() - 1) * b.z + b.z == s.len() * b.z) by (nonlinear_arith);
    }
}

/// A constant input stream is recovered exactly: when every one of the
/// `n` samples of a complete run reports the same rates `b`, the averaged
/// bias equals `b` on every axis, with no rounding loss.
pub proof fn lemma_constant_bias_recovered(s: Seq<RateSample>, b: RateSample, n: int)
    requires
        n >= 1,
        s.len() == n,
        forall|i: int| 0 <= i < s.len() ==> s[i] == b,
    ensures
        avg_toward_zero(sum_x(s), n) == b.x,
        avg_toward_zero(sum_y(s), n) == b.y,
        avg_toward_zero(sum_z(s), n) == b.z,
{
    lemma_sum_of_constant(s, b);
    lemma_exact_multiple_avg(b.x as int, n);
    lemma_exact_multiple_avg(b.y as int, n);
    lemma_exact_multiple_avg(b.z as int, n);
}

/// Averaging an exact multiple loses nothing: `avg_toward_zero(n * v, n)`
/// is `v` for every sign of `v`.
proof fn lemma_exact_multiple_avg(v: int, n: int)
    requires
        n >= 1,
    ensures
        avg_toward_zero(n * v, n) == v,
{
    if v >= 0 {
        lemma_div_multiples_vanish(v, n);
    } else {
        assert(-(n * v) == n * (-v)) by (nonlinear_arith);
        assert(n * v < 0) by (nonlinear_arith)
            requires n >= 1, v < 0;
        lemma_div_multiples_vanish(-v, n);
    }
}

} // verus!
