use gyro_pwm::timer::{Channel, ChannelGate, PwmTimer, TimerWidth};
use gyro_pwm::ConfigError;

// 1 MHz input clock at 50 Hz output: period 20000, auto-reload 19999.
const CLOCK_HZ: u32 = 1_000_000;
const FREQ_HZ: u32 = 50;

#[test]
fn max_duty_is_reload_plus_one_only_on_16_bit() {
    // Same auto-reload value on both variants: the 16-bit compare unit
    // triggers one cycle offset from the reload, so its maximum duty is
    // R + 1; the 32-bit variant's is exactly R.
    let t16 = PwmTimer::configure(TimerWidth::Bits16, CLOCK_HZ, FREQ_HZ).unwrap();
    let t32 = PwmTimer::configure(TimerWidth::Bits32, CLOCK_HZ, FREQ_HZ).unwrap();
    assert_eq!(t16.get_max_duty(), 20000);
    assert_eq!(t32.get_max_duty(), 19999);
}

#[test]
fn duty_round_trips_on_both_variants() {
    for width in [TimerWidth::Bits16, TimerWidth::Bits32] {
        let mut t = PwmTimer::configure(width, CLOCK_HZ, FREQ_HZ).unwrap();
        let half = t.get_max_duty() / 2;
        t.set_duty(Channel::Ch1, half);
        assert_eq!(t.get_duty(Channel::Ch1), half);
        // The other compare registers keep their reset value.
        assert_eq!(t.get_duty(Channel::Ch2), 0);
        assert_eq!(t.get_duty(Channel::Ch3), 0);
        assert_eq!(t.get_duty(Channel::Ch4), 0);
    }
}

#[test]
fn enable_then_disable_leaves_other_bits_alone() {
    let mut t = PwmTimer::configure(TimerWidth::Bits16, CLOCK_HZ, FREQ_HZ).unwrap();
    t.enable(Channel::Ch1);
    t.enable(Channel::Ch3);
    t.enable(Channel::Ch2);
    t.disable(Channel::Ch2);
    assert!(t.is_enabled(Channel::Ch1));
    assert!(!t.is_enabled(Channel::Ch2));
    assert!(t.is_enabled(Channel::Ch3));
    assert!(!t.is_enabled(Channel::Ch4));
}

#[test]
fn channels_start_disabled_with_zero_duty() {
    let t = PwmTimer::configure(TimerWidth::Bits32, CLOCK_HZ, FREQ_HZ).unwrap();
    for ch in [Channel::Ch1, Channel::Ch2, Channel::Ch3, Channel::Ch4] {
        assert!(!t.is_enabled(ch));
        assert_eq!(t.get_duty(ch), 0);
    }
}

#[test]
fn configure_rejects_zero_frequency() {
    let r = PwmTimer::configure(TimerWidth::Bits16, CLOCK_HZ, 0);
    assert_eq!(r.err(), Some(ConfigError::ZeroFrequency));
}

#[test]
fn configure_rejects_frequency_above_clock() {
    let r = PwmTimer::configure(TimerWidth::Bits32, 1000, 1001);
    assert_eq!(r.err(), Some(ConfigError::FrequencyTooHigh));
}

#[test]
fn configure_rejects_period_beyond_16_bits() {
    // 100 MHz clock at 1 Hz needs an auto-reload of 99_999_999: far
    // beyond a 16-bit register, but fine for the 32-bit variant.
    let r16 = PwmTimer::configure(TimerWidth::Bits16, 100_000_000, 1);
    assert_eq!(r16.err(), Some(ConfigError::PeriodOutOfRange));
    let t32 = PwmTimer::configure(TimerWidth::Bits32, 100_000_000, 1).unwrap();
    assert_eq!(t32.get_max_duty(), 99_999_999);
}

#[test]
fn frequency_at_clock_boundary_is_accepted() {
    // Frequency equal to the clock gives a period of one and an
    // auto-reload of zero.
    let t = PwmTimer::configure(TimerWidth::Bits16, 1000, 1000).unwrap();
    assert_eq!(t.get_max_duty(), 1);
}

#[test]
fn set_frequency_keeps_enable_bits_and_duties() {
    let mut t = PwmTimer::configure(TimerWidth::Bits16, CLOCK_HZ, FREQ_HZ).unwrap();
    t.enable(Channel::Ch2);
    t.set_duty(Channel::Ch2, 1234);
    t.set_frequency(100).unwrap();
    // Period is now 10000, so the 16-bit maximum duty is 10000.
    assert_eq!(t.get_max_duty(), 10000);
    assert!(t.is_enabled(Channel::Ch2));
    assert!(!t.is_enabled(Channel::Ch1));
    assert_eq!(t.get_duty(Channel::Ch2), 1234);
}

#[test]
fn set_frequency_rejection_changes_nothing() {
    let mut t = PwmTimer::configure(TimerWidth::Bits16, CLOCK_HZ, FREQ_HZ).unwrap();
    t.enable(Channel::Ch4);
    let r = t.set_frequency(1); // auto-reload 999_999 does not fit 16 bits
    assert_eq!(r.err(), Some(ConfigError::PeriodOutOfRange));
    assert_eq!(t.get_max_duty(), 20000);
    assert!(t.is_enabled(Channel::Ch4));
    let r0 = t.set_frequency(0);
    assert_eq!(r0.err(), Some(ConfigError::ZeroFrequency));
    assert_eq!(t.get_max_duty(), 20000);
}

#[test]
fn channel_gate_controls_only_its_channel() {
    let mut t = PwmTimer::configure(TimerWidth::Bits32, CLOCK_HZ, FREQ_HZ).unwrap();
    let gate = ChannelGate::new(Channel::Ch3);
    assert_eq!(gate.channel(), Channel::Ch3);
    t.enable(Channel::Ch1);
    gate.enable(&mut t);
    assert!(t.is_enabled(Channel::Ch3));
    assert!(t.is_enabled(Channel::Ch1));
    gate.disable(&mut t);
    assert!(!t.is_enabled(Channel::Ch3));
    assert!(t.is_enabled(Channel::Ch1));
}
