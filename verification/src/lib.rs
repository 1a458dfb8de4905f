//! Core logic of a small inertial-control firmware: gyroscope bias
//! calibration, orientation tracking by rate integration, and a generic
//! pulse-width-modulation timer model that covers both 16-bit and 32-bit
//! compare-register widths.
//!
//! All quantities are fixed-point integers: angular rates in microradians
//! per second, time stamps in microseconds, and angles in nanodegrees.
//! The hardware edges (sensor bus reads, the monotonic clock, memory-mapped
//! register writes) live outside this crate; it is handed plain values and
//! hands plain values back.

use vstd::prelude::*;

pub mod bias;
pub mod orientation;
pub mod timer;

verus! {

/// A construction-time configuration error: the request is rejected before
/// any state is built.
#[derive(Clone, Copy, Debug, PartialEq, Eq, Structural)]
pub enum ConfigError {
    /// A calibration run over zero samples is undefined.
    ZeroSampleCount,
    /// A pulse-width-modulated output at frequency zero is undefined.
    ZeroFrequency,
    /// The requested frequency exceeds the timer's input clock.
    FrequencyTooHigh,
    /// The period does not fit the bound timer's register width.
    PeriodOutOfRange,
}

} // verus!
