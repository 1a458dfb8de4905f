//! A register-level model of a general-purpose hardware timer driving one
//! pulse-width-modulated output per compare channel.
//!
//! One abstraction covers two hardware variants that differ in the width of
//! their compare unit. The width is fixed when the timer is bound and never
//! changes afterwards; it decides how the maximum duty value relates to the
//! auto-reload register. The compare unit of the 16-bit variant triggers one
//! cycle offset from the reload, so its maximum duty is the auto-reload
//! value plus one; the 32-bit variant's maximum duty is the auto-reload
//! value itself. That asymmetry reflects a real compare-unit timing
//! difference and is preserved exactly.
//!
//! The memory-mapped registers themselves are written by a platform layer
//! outside this crate; this model holds the values those writes carry and
//! the read-modify-write discipline on the shared enable register.

use vstd::prelude::*;
use crate::ConfigError;

verus! {

/// The compare-register width of the bound hardware timer instance.
#[derive(Clone, Copy, Debug, PartialEq, Eq, Structural)]
pub enum TimerWidth {
    Bits16,
    Bits32,
}

/// One of the four compare channels of a timer.
#[derive(Clone, Copy, Debug, PartialEq, Eq, Structural)]
pub enum Channel {
    Ch1,
    Ch2,
    Ch3,
    Ch4,
}

impl Channel {
    /// The position of this channel's bit in the compare-enable register.
    pub open spec fn spec_index(self) -> u8 {
        match self {
            Channel::Ch1 => 0,
            Channel::Ch2 => 1,
            Channel::Ch3 => 2,
            Channel::Ch4 => 3,
        }
    }

    /// The position of this channel's bit in the compare-enable register.
    pub fn index(&self) -> (i: u8)
        ensures
            i == self.spec_index(),
            i < 4,
    {
        match self {
            Channel::Ch1 => 0,
            Channel::Ch2 => 1,
            Channel::Ch3 => 2,
            Channel::Ch4 => 3,
        }
    }
}

/// True when bit `i` of the compare-enable register is set.
pub open spec fn bit_set(bits: u8, i: u8) -> bool {
    bits & (1u8 << i) != 0
}

/// The compare-enable register after setting bit `i`.
pub open spec fn with_bit_set(bits: u8, i: u8) -> u8 {
    bits | (1u8 << i)
}

/// The compare-enable register after clearing bit `i`.
pub open spec fn with_bit_clear(bits: u8, i: u8) -> u8 {
    bits & !(1u8 << i)
}

/// A configured timer bound to one hardware instance: its register state
/// (auto-reload, compare-enable, one compare value per channel), the fixed
/// width of that instance, and the input clock it counts.
pub struct PwmTimer {
    width: TimerWidth,
    clock_hz: u32,
    arr: u32,
    ccer: u8,
    ccr1: u32,
    ccr2: u32,
    ccr3: u32,
    ccr4: u32,
}

impl PwmTimer {
    /// The compare-register width of the bound instance.
    pub closed spec fn width(self) -> TimerWidth {
        self.width
    }

    /// The timer's input clock, in hertz.
    pub closed spec fn clock(self) -> int {
        self.clock_hz as int
    }

    /// The auto-reload register: the counting period less one.
    pub closed spec fn reload(self) -> int {
        self.arr as int
    }

    /// The compare-enable register, one bit per channel.
    pub closed spec fn enable_bits(self) -> u8 {
        self.ccer
    }

    /// True when the given channel's enable bit is set.
    pub open spec fn enabled(self, ch: Channel) -> bool {
        bit_set(self.enable_bits(), ch.spec_index())
    }

    /// The given channel's compare register.
    pub closed spec fn duty(self, ch: Channel) -> u32 {
        match ch {
            Channel::Ch1 => self.ccr1,
            Channel::Ch2 => self.ccr2,
            Channel::Ch3 => self.ccr3,
            Channel::Ch4 => self.ccr4,
        }
    }

    /// The largest legal duty value for the current period. The 16-bit
    /// variant's compare unit triggers one cycle offset from the reload, so
    /// its maximum is the auto-reload value plus one; the 32-bit variant's
    /// maximum is the auto-reload value directly.
    pub open spec fn spec_max_duty(self) -> int {
        match self.width() {
            TimerWidth::Bits16 => self.reload() + 1,
            TimerWidth::Bits32 => self.reload(),
        }
    }

    /// The auto-reload value fits the bound instance's register width, and
    /// only the four channel bits of the enable register are ever used.
    pub open spec fn well_formed(self) -> bool {
        &&& (self.width() == TimerWidth::Bits16 ==> self.reload() <= 0xffff)
        &&& self.enable_bits() < 16
    }

    /// Binds a timer instance of the given width and input clock and
    /// programs its period for the requested output frequency. The period
    /// is the input clock divided by the frequency; the auto-reload
    /// register holds the period less one. Every channel starts disabled
    /// with a zero compare value. An impossible request is rejected here,
    /// before any register is touched: a zero frequency, a frequency above
    /// the input clock, or a period beyond a 16-bit instance's register.
    pub fn configure(width: TimerWidth, clock_hz: u32, frequency_hz: u32) -> (r: Result<
        PwmTimer,
        ConfigError,
    >)
        ensures
            frequency_hz == 0 ==> r == Result::<PwmTimer, ConfigError>::Err(
                ConfigError::ZeroFrequency,
            ),
            frequency_hz >= 1 && clock_hz as int / frequency_hz as int == 0 ==> r == Result::<
                PwmTimer,
                ConfigError,
            >::Err(ConfigError::FrequencyTooHigh),
            frequency_hz >= 1 && clock_hz as int / frequency_hz as int >= 1 && width
                == TimerWidth::Bits16 && clock_hz as int / frequency_hz as int - 1 > 0xffff ==> r
                == Result::<PwmTimer, ConfigError>::Err(ConfigError::PeriodOutOfRange),
            r is Ok <==> {
                &&& frequency_hz >= 1
                &&& clock_hz as int / frequency_hz as int >= 1
                &&& (width == TimerWidth::Bits16 ==> clock_hz as int / frequency_hz as int - 1
                    <= 0xffff)
            },
            r is Ok ==> {
                &&& r->Ok_0.well_formed()
                &&& r->Ok_0.width() == width
                &&& r->Ok_0.clock() == clock_hz
                &&& r->Ok_0.reload() == clock_hz as int / frequency_hz as int - 1
                &&& forall|c: Channel| !r->Ok_0.enabled(c)
                &&& forall|c: Channel| r->Ok_0.duty(c) == 0
            },
    {
        if frequency_hz == 0 {
            return Err(ConfigError::ZeroFrequency);
        }
        let period: u32 = clock_hz / frequency_hz;
        if period == 0 {
            return Err(ConfigError::FrequencyTooHigh);
        }
        let arr: u32 = period - 1;
        if matches!(width, TimerWidth::Bits16) && arr > 0xffff {
            return Err(ConfigError::PeriodOutOfRange);
        }
        let t = PwmTimer { width, clock_hz, arr, ccer: 0, ccr1: 0, ccr2: 0, ccr3: 0, ccr4: 0 };
        proof {
            assert forall|c: Channel| !t.enabled(c) by {
                lemma_zero_bits_clear(c.spec_index());
            }
        }
        Ok(t)
    }

    /// Reprograms the period for a new output frequency while the timer may
    /// be running. The channel enable bits and the compare values are left
    /// exactly as they were, so no enabled channel glitches; on rejection
    /// the whole timer state is unchanged.
    pub fn set_frequency(&mut self, frequency_hz: u32) -> (r: Result<(), ConfigError>)
        requires
            old(self).well_formed(),
        ensures
            final(self).well_formed(),
            final(self).width() == old(self).width(),
            final(self).clock() == old(self).clock(),
            final(self).enable_bits() == old(self).enable_bits(),
            forall|c: Channel| final(self).duty(c) == old(self).duty(c),
            frequency_hz == 0 ==> r == Result::<(), ConfigError>::Err(ConfigError::ZeroFrequency),
            frequency_hz >= 1 && old(self).clock() / (frequency_hz as int) == 0 ==> r == Result::<
                (),
                ConfigError,
            >::Err(ConfigError::FrequencyTooHigh),
            frequency_hz >= 1 && old(self).clock() / (frequency_hz as int) >= 1 && old(
                self,
            ).width() == TimerWidth::Bits16 && old(self).clock() / (frequency_hz as int) - 1
                > 0xffff ==> r == Result::<(), ConfigError>::Err(ConfigError::PeriodOutOfRange),
            r is Ok <==> {
                &&& frequency_hz >= 1
                &&& old(self).clock() / (frequency_hz as int) >= 1
                &&& (old(self).width() == TimerWidth::Bits16 ==> old(self).clock() / (
                frequency_hz as int) - 1 <= 0xffff)
            },
            r is Ok ==> final(self).reload() == old(self).clock() / (frequency_hz as int) - 1,
            r is Err ==> final(self).reload() == old(self).reload(),
    {
        if frequency_hz == 0 {
            return Err(ConfigError::ZeroFrequency);
        }
        let period: u32 = self.clock_hz / frequency_hz;
        if period == 0 {
            return Err(ConfigError::FrequencyTooHigh);
        }
        let arr: u32 = period - 1;
        if matches!(self.width, TimerWidth::Bits16) && arr > 0xffff {
            return Err(ConfigError::PeriodOutOfRange);
        }
        self.arr = arr;
        Ok(())
    }

    /// The largest legal duty value for the current period, following the
    /// width-dependent rule of [`PwmTimer::spec_max_duty`].
    pub fn get_max_duty(&self) -> (r: u32)
        requires
            self.well_formed(),
        ensures
            r == self.spec_max_duty(),
    {
        match self.width {
            TimerWidth::Bits16 => self.arr + 1,
            TimerWidth::Bits32 => self.arr,
        }
    }

    /// Writes the channel's compare register. A value above the maximum
    /// duty is out of contract: by design the write is neither clamped nor
    /// rejected at run time, so callers validate first.
    pub fn set_duty(&mut self, ch: Channel, value: u32)
        requires
            old(self).well_formed(),
            value <= old(self).spec_max_duty(),
        ensures
            final(self).well_formed(),
            final(self).duty(ch) == value,
            forall|c: Channel| c != ch ==> final(self).duty(c) == old(self).duty(c),
            final(self).width() == old(self).width(),
            final(self).clock() == old(self).clock(),
            final(self).reload() == old(self).reload(),
            final(self).enable_bits() == old(self).enable_bits(),
    {
        match ch {
            Channel::Ch1 => self.ccr1 = value,
            Channel::Ch2 => self.ccr2 = value,
            Channel::Ch3 => self.ccr3 = value,
            Channel::Ch4 => self.ccr4 = value,
        }
    }

    /// Reads the channel's compare register back.
    pub fn get_duty(&self, ch: Channel) -> (r: u32)
        ensures
            r == self.duty(ch),
    {
        match ch {
            Channel::Ch1 => self.ccr1,
            Channel::Ch2 => self.ccr2,
            Channel::Ch3 => self.ccr3,
            Channel::Ch4 => self.ccr4,
        }
    }

    /// Reads the channel's enable bit back.
    pub fn is_enabled(&self, ch: Channel) -> (r: bool)
        ensures
            r == self.enabled(ch),
    {
        let i: u8 = ch.index();
        self.ccer & (1u8 << i) != 0
    }

    /// Sets the channel's enable bit by a read-modify-write of the
    /// compare-enable register, leaving every other channel's bit and the
    /// rest of the timer state untouched.
    pub fn enable(&mut self, ch: Channel)
        requires
            old(self).well_formed(),
        ensures
            final(self).well_formed(),
            final(self).enabled(ch),
            final(self).enable_bits() == with_bit_set(old(self).enable_bits(), ch.spec_index()),
            forall|c: Channel| c != ch ==> final(self).enabled(c) == old(self).enabled(c),
            final(self).width() == old(self).width(),
            final(self).clock() == old(self).clock(),
            final(self).reload() == old(self).reload(),
            forall|c: Channel| final(self).duty(c) == old(self).duty(c),
    {
        let i: u8 = ch.index();
        self.ccer = self.ccer | (1u8 << i);
        proof {
            lemma_set_bit(old(self).enable_bits(), i);
            assert forall|c: Channel| c != ch implies final(self).enabled(c) == old(self).enabled(
                c,
            ) by {
                lemma_channel_bits_distinct(c, ch);
                lemma_set_bit_preserves_others(old(self).enable_bits(), i, c.spec_index());
            }
        }
    }

    /// Clears the channel's enable bit by a read-modify-write of the
    /// compare-enable register, leaving every other channel's bit and the
    /// rest of the timer state untouched.
    pub fn disable(&mut self, ch: Channel)
        requires
            old(self).well_formed(),
        ensures
            final(self).well_formed(),
            !final(self).enabled(ch),
            final(self).enable_bits() == with_bit_clear(old(self).enable_bits(), ch.spec_index()),
            forall|c: Channel| c != ch ==> final(self).enabled(c) == old(self).enabled(c),
            final(self).width() == old(self).width(),
            final(self).clock() == old(self).clock(),
            final(self).reload() == old(self).reload(),
            forall|c: Channel| final(self).duty(c) == old(self).duty(c),
    {
        let i: u8 = ch.index();
        self.ccer = self.ccer & !(1u8 << i);
        proof {
            lemma_clear_bit(old(self).enable_bits(), i);
            assert forall|c: Channel| c != ch implies final(self).enabled(c) == old(self).enabled(
                c,
            ) by {
                lemma_channel_bits_distinct(c, ch);
                lemma_clear_bit_preserves_others(old(self).enable_bits(), i, c.spec_index());
            }
        }
    }
}

/// Gates one compare channel of a configured timer: per-channel enabling is
/// logically distinct from per-timer configuration, even though both live
/// in the same register space.
pub struct ChannelGate {
    channel: Channel,
}

impl ChannelGate {
    /// The channel this gate controls.
    pub closed spec fn spec_channel(self) -> Channel {
        self.channel
    }

    /// Builds a gate over the given channel.
    pub fn new(channel: Channel) -> (g: ChannelGate)
        ensures
            g.spec_channel() == channel,
    {
        ChannelGate { channel }
    }

    /// The channel this gate controls.
    pub fn channel(&self) -> (c: Channel)
        ensures
            c == self.spec_channel(),
    {
        self.channel
    }

    /// Enables the gated channel, leaving every other channel untouched.
    pub fn enable(&self, t: &mut PwmTimer)
        requires
            old(t).well_formed(),
        ensures
            final(t).well_formed(),
            final(t).enabled(self.spec_channel()),
            forall|c: Channel|
                c != self.spec_channel() ==> final(t).enabled(c) == old(t).enabled(c),
            final(t).width() == old(t).width(),
            final(t).clock() == old(t).clock(),
            final(t).reload() == old(t).reload(),
            forall|c: Channel| final(t).duty(c) == old(t).duty(c),
    {
        t.enable(self.channel);
    }

    /// Disables the gated channel, leaving every other channel untouched.
    pub fn disable(&self, t: &mut PwmTimer)
        requires
            old(t).well_formed(),
        ensures
            final(t).well_formed(),
            !final(t).enabled(self.spec_channel()),
            forall|c: Channel|
                c != self.spec_channel() ==> final(t).enabled(c) == old(t).enabled(c),
            final(t).width() == old(t).width(),
            final(t).clock() == old(t).clock(),
            final(t).reload() == old(t).reload(),
            forall|c: Channel| final(t).duty(c) == old(t).duty(c),
    {
        t.disable(self.channel);
    }
}

/// Distinct channels sit at distinct bit positions of the compare-enable
/// register.
proof fn lemma_channel_bits_distinct(a: Channel, b: Channel)
    requires
        a != b,
    ensures
        a.spec_index() != b.spec_index(),
{
}

/// In a zeroed compare-enable register every bit is clear.
proof fn lemma_zero_bits_clear(i: u8)
    by (bit_vector)
    ensures
        !bit_set(0, i),
{
}

/// Setting bit `i` makes bit `i` read back as set, and keeps the register
/// inside its four channel bits.
proof fn lemma_set_bit(bits: u8, i: u8)
    by (bit_vector)
    requires
        bits < 16,
        i < 4,
    ensures
        bit_set(with_bit_set(bits, i), i),
        with_bit_set(bits, i) < 16,
{
}

/// Setting bit `i` leaves every other bit `j` as it was.
proof fn lemma_set_bit_preserves_others(bits: u8, i: u8, j: u8)
    by (bit_vector)
    requires
        i != j,
    ensures
        bit_set(with_bit_set(bits, i), j) == bit_set(bits, j),
{
}

/// Clearing bit `i` makes bit `i` read back as clear, and keeps the
/// register inside its four channel bits.
proof fn lemma_clear_bit(bits: u8, i: u8)
    by (bit_vector)
    requires
        bits < 16,
        i < 4,
    ensures
        !bit_set(with_bit_clear(bits, i), i),
        with_bit_clear(bits, i) < 16,
{
}

/// Clearing bit `i` leaves every other bit `j` as it was.
proof fn lemma_clear_bit_preserves_others(bits: u8, i: u8, j: u8)
    by (bit_vector)
    requires
        i != j,
    ensures
        bit_set(with_bit_clear(bits, i), j) == bit_set(bits, j),
{
}

/// Gating is isolated at the bit level: enabling a channel and then
/// disabling it returns every other channel's enable bit to exactly the
/// value it had before, whatever state the register was in.
pub proof fn lemma_gate_isolation(bits: u8, ch: Channel, other: Channel)
    requires
        other != ch,
    ensures
        bit_set(
            with_bit_clear(with_bit_set(bits, ch.spec_index()), ch.spec_index()),
            other.spec_index(),
        ) == bit_set(bits, other.spec_index()),
{
    lemma_channel_bits_distinct(other, ch);
    lemma_set_bit_preserves_others(bits, ch.spec_index(), other.spec_index());
    lemma_clear_bit_preserves_others(
        with_bit_set(bits, ch.spec_index()),
        ch.spec_index(),
        other.spec_index(),
    );
}

} // verus!
