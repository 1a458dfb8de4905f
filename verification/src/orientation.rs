//! Orientation tracking by bias-corrected rate integration.
//!
//! Each iteration of the control loop reads one rate sample and one clock
//! stamp, subtracts the calibrated bias per axis, scales the net rate by the
//! elapsed time, converts from radians to degrees, and adds the result to
//! three running angle accumulators (roll, pitch, yaw).
//!
//! Units: rates are microradians per second, time stamps microseconds, and
//! the accumulated angles nanodegrees. One microradian per second sustained
//! over one microsecond therefore contributes
//! `DEG_SCALE_NUM / DEG_SCALE_DEN` (that is, `180 / (1000 * pi)`)
//! nanodegrees, truncated toward zero once per axis and iteration.
//!
//! The time source is assumed monotonic and is held in 64 bits of
//! microseconds; wraparound of the underlying hardware counter is the
//! clock's concern and out of scope here, and a stamp that ran backwards
//! is rejected by contract.

use vstd::prelude::*;
use vstd::arithmetic::div_mod::lemma_div_is_ordered;
use crate::bias::{BiasVector, RateSample};

verus! {

/// Numerator of the radian-to-degree scale factor.
pub const DEG_SCALE_NUM: u128 = 180_000_000_000;

/// Denominator of the radian-to-degree scale factor: `pi * 10^12`, rounded
/// to the nearest integer.
pub const DEG_SCALE_DEN: u128 = 3_141_592_653_590;

/// The longest elapsed time one iteration may cover, in microseconds
/// (about nine years). The bound keeps the scaled product of the widest
/// net rate and the elapsed time inside 128 bits.
pub const MAX_STEP_MICROS: u64 = 0xffff_ffff_ffff;

/// The angle contribution of one iteration on one axis, in nanodegrees:
/// the net rate `rate - bias` times the elapsed time `dt`, scaled from
/// microradians to nanodegrees, truncated toward zero.
pub open spec fn axis_delta(rate: int, bias: int, dt: int) -> int {
    let raw = (rate - bias) * dt;
    if raw >= 0 {
        (raw * (DEG_SCALE_NUM as int)) / (DEG_SCALE_DEN as int)
    } else {
        -(((-raw) * (DEG_SCALE_NUM as int)) / (DEG_SCALE_DEN as int))
    }
}

/// True when adding one iteration's contribution keeps an angle
/// accumulator inside the signed 128-bit range.
pub open spec fn step_in_range(angle: int, rate: int, bias: int, dt: int) -> bool {
    i128::MIN <= angle + axis_delta(rate, bias, dt) <= i128::MAX
}

/// The angle an axis reaches after `k` iterations that all start from
/// `start` and see the same rate, bias and elapsed time.
pub open spec fn integrated_angle(start: int, rate: int, bias: int, dt: int, k: nat) -> int
    decreases k,
{
    if k == 0 {
        start
    } else {
        integrated_angle(start, rate, bias, dt, (k - 1) as nat) + axis_delta(rate, bias, dt)
    }
}

/// Integrates bias-corrected angular rates into a running orientation.
/// Built from a completed [`BiasVector`] only, so no partially calibrated
/// offset can ever be applied.
pub struct OrientationIntegrator {
    bias: BiasVector,
    last_us: u64,
    roll_ndeg: i128,
    pitch_ndeg: i128,
    yaw_ndeg: i128,
}

impl OrientationIntegrator {
    /// The bias subtracted from every sample.
    pub closed spec fn bias(self) -> BiasVector {
        self.bias
    }

    /// The clock stamp of the most recent iteration, in microseconds.
    pub closed spec fn last_time(self) -> int {
        self.last_us as int
    }

    /// The accumulated roll angle, in nanodegrees.
    pub closed spec fn roll(self) -> int {
        self.roll_ndeg as int
    }

    /// The accumulated pitch angle, in nanodegrees.
    pub closed spec fn pitch(self) -> int {
        self.pitch_ndeg as int
    }

    /// The accumulated yaw angle, in nanodegrees.
    pub closed spec fn yaw(self) -> int {
        self.yaw_ndeg as int
    }

    /// Starts integration at the given clock stamp with all three angles
    /// at zero.
    pub fn new(bias: BiasVector, start_time_us: u64) -> (s: OrientationIntegrator)
        ensures
            s.bias() == bias,
            s.last_time() == start_time_us,
            s.roll() == 0,
            s.pitch() == 0,
            s.yaw() == 0,
    {
        OrientationIntegrator {
            bias,
            last_us: start_time_us,
            roll_ndeg: 0,
            pitch_ndeg: 0,
            yaw_ndeg: 0,
        }
    }

    /// One loop iteration: computes the elapsed time against the previous
    /// stamp, subtracts the bias from the sample, and adds the scaled net
    /// rotation to each angle. A stalled clock (`now_us` equal to the last
    /// stamp) leaves every angle unchanged; no division by the elapsed
    /// time is involved.
    pub fn update(&mut self, s: RateSample, now_us: u64)
        requires
            old(self).last_time() <= now_us,
            now_us - old(self).last_time() <= MAX_STEP_MICROS,
            step_in_range(
                old(self).roll(),
                s.x as int,
                old(self).bias().x as int,
                now_us - old(self).last_time(),
            ),
            step_in_range(
                old(self).pitch(),
                s.y as int,
                old(self).bias().y as int,
                now_us - old(self).last_time(),
            ),
            step_in_range(
                old(self).yaw(),
                s.z as int,
                old(self).bias().z as int,
                now_us - old(self).last_time(),
            ),
        ensures
            final(self).bias() == old(self).bias(),
            final(self).last_time() == now_us,
            final(self).roll() == old(self).roll() + axis_delta(
                s.x as int,
                old(self).bias().x as int,
                now_us - old(self).last_time(),
            ),
            final(self).pitch() == old(self).pitch() + axis_delta(
                s.y as int,
                old(self).bias().y as int,
                now_us - old(self).last_time(),
            ),
            final(self).yaw() == old(self).yaw() + axis_delta(
                s.z as int,
                old(self).bias().z as int,
                now_us - old(self).last_time(),
            ),
            now_us == old(self).last_time() ==> {
                &&& final(self).roll() == old(self).roll()
                &&& final(self).pitch() == old(self).pitch()
                &&& final(self).yaw() == old(self).yaw()
            },
    {
        let dt: u64 = now_us - self.last_us;
        self.roll_ndeg = self.roll_ndeg + axis_step(s.x, self.bias.x, dt);
        self.pitch_ndeg = self.pitch_ndeg + axis_step(s.y, self.bias.y, dt);
        self.yaw_ndeg = self.yaw_ndeg + axis_step(s.z, self.bias.z, dt);
        self.last_us = now_us;
        proof {
            lemma_zero_dt_no_delta(s.x as int, old(self).bias().x as int);
            lemma_zero_dt_no_delta(s.y as int, old(self).bias().y as int);
            lemma_zero_dt_no_delta(s.z as int, old(self).bias().z as int);
        }
    }

    /// The accumulated roll angle, in nanodegrees.
    pub fn roll_nanodeg(&self) -> (r: i128)
        ensures
            r == self.roll(),
    {
        self.roll_ndeg
    }

    /// The accumulated pitch angle, in nanodegrees.
    pub fn pitch_nanodeg(&self) -> (r: i128)
        ensures
            r == self.pitch(),
    {
        self.pitch_ndeg
    }

    /// The accumulated yaw angle, in nanodegrees.
    pub fn yaw_nanodeg(&self) -> (r: i128)
        ensures
            r == self.yaw(),
    {
        self.yaw_ndeg
    }

    /// The clock stamp of the most recent iteration, in microseconds.
    pub fn last_time_us(&self) -> (r: u64)
        ensures
            r == self.last_time(),
    {
        self.last_us
    }
}

/// One axis of one iteration: the bias-corrected rate scaled by the elapsed
/// time and converted to nanodegrees, computed on magnitudes so that every
/// machine division is unsigned.
fn axis_step(rate: i32, bias: i32, dt: u64) -> (d: i128)
    requires
        dt <= MAX_STEP_MICROS,
    ensures
        d == axis_delta(rate as int, bias as int, dt as int),
{
    let net: i64 = rate as i64 - bias as i64;
    if net >= 0 {
        proof {
            lemma_scaled_product_bounded(net as int, dt as int);
        }
        let scaled: u128 = (net as u128) * (dt as u128);
        proof {
            lemma_quotient_bounded(scaled as int);
        }
        let q: u128 = scaled * DEG_SCALE_NUM / DEG_SCALE_DEN;
        q as i128
    } else {
        let mag: u64 = (-net) as u64;
        proof {
            lemma_scaled_product_bounded(mag as int, dt as int);
            assert((mag as int) * (dt as int) == -((net as int) * (dt as int)))
                by (nonlinear_arith)
                requires mag == -(net as int);
        }
        let scaled: u128 = (mag as u128) * (dt as u128);
        proof {
            lemma_quotient_bounded(scaled as int);
        }
        let q: u128 = scaled * DEG_SCALE_NUM / DEG_SCALE_DEN;
        -(q as i128)
    }
}

/// A net rate of at most one full signed 32-bit span times an elapsed time
/// of at most `MAX_STEP_MICROS` stays far inside 128 bits, before and after
/// the degree scaling.
proof fn lemma_scaled_product_bounded(mag: int, dt: int)
    requires
        0 <= mag <= 0x1_0000_0000,
        0 <= dt <= MAX_STEP_MICROS,
    ensures
        0 <= mag * dt <= 0x1_0000_0000 * (MAX_STEP_MICROS as int),
{
    assert(0 <= mag * dt <= 0x1_0000_0000 * (MAX_STEP_MICROS as int)) by (nonlinear_arith)
        requires 0 <= mag <= 0x1_0000_0000, 0 <= dt <= MAX_STEP_MICROS;
}

/// Scaling a bounded product by the degree factor keeps the quotient well
/// inside the signed 128-bit range.
proof fn lemma_quotient_bounded(scaled: int)
    requires
        0 <= scaled <= 0x1_0000_0000 * (MAX_STEP_MICROS as int),
    ensures
        0 <= scaled * (DEG_SCALE_NUM as int) <= u128::MAX,
        0 <= scaled * (DEG_SCALE_NUM as int) / (DEG_SCALE_DEN as int) <= i128::MAX,
{
    assert(0 <= scaled * (DEG_SCALE_NUM as int)
        <= 0x1_0000_0000 * (MAX_STEP_MICROS as int) * (DEG_SCALE_NUM as int))
        by (nonlinear_arith)
        requires 0 <= scaled <= 0x1_0000_0000 * (MAX_STEP_MICROS as int);
    lemma_div_is_ordered(
        scaled * (DEG_SCALE_NUM as int),
        0x1_0000_0000 * (MAX_STEP_MICROS as int) * (DEG_SCALE_NUM as int),
        DEG_SCALE_DEN as int,
    );
}

/// A stalled clock contributes nothing: with an elapsed time of zero the
/// per-axis contribution is zero, whatever the rate and bias.
proof fn lemma_zero_dt_no_delta(rate: int, bias: int)
    ensures
        axis_delta(rate, bias, 0) == 0,
{
    assert((rate - bias) * 0 == 0) by (nonlinear_arith);
}

/// After `k` iterations at a constant rate, a constant bias and a fixed
/// elapsed time per iteration, each angle sits exactly `k` times the
/// single-iteration contribution above its starting value: integration is
/// linear in the iteration count.
pub proof fn lemma_constant_rate_integration(start: int, rate: int, bias: int, dt: int, k: nat)
    ensures
        integrated_angle(start, rate, bias, dt, k) == start + k * axis_delta(rate, bias, dt),
    decreases k,
{
    let d = axis_delta(rate, bias, dt);
    if k == 0 {
        assert(0 * d == 0) by (nonlinear_arith);
    } else {
        lemma_constant_rate_integration(start, rate, bias, dt, (k - 1) as nat);
        assert((k - 1) * d + d == k * d) by (nonlinear_arith);
    }
}

/// A zero net rate never drifts: when every sample exactly equals the bias,
/// the integrated angle still equals its starting value after any number of
/// iterations.
pub proof fn lemma_zero_net_rate_no_drift(start: int, rate: int, dt: int, k: nat)
    ensures
        integrated_angle(start, rate, rate, dt, k) == start,
{
    assert((rate - rate) * dt == 0) by (nonlinear_arith);
    lemma_constant_rate_integration(start, rate, rate, dt, k);
    assert(k * axis_delta(rate, rate, dt) == 0) by (nonlinear_arith)
        requires axis_delta(rate, rate, dt) == 0;
}

} // verus!
