use gyro_pwm::bias::{BiasVector, RateSample};
use gyro_pwm::orientation::OrientationIntegrator;

#[test]
fn starts_at_zero() {
    let bias = BiasVector { x: 0, y: 0, z: 0 };
    let integ = OrientationIntegrator::new(bias, 500);
    assert_eq!(integ.roll_nanodeg(), 0);
    assert_eq!(integ.pitch_nanodeg(), 0);
    assert_eq!(integ.yaw_nanodeg(), 0);
    assert_eq!(integ.last_time_us(), 500);
}

#[test]
fn zero_net_rate_never_drifts() {
    // Every sample exactly equals the bias: after any number of
    // iterations all three angles still sit at their initial value.
    let bias = BiasVector {
        x: 10,
        y: -20,
        z: 30,
    };
    let mut integ = OrientationIntegrator::new(bias, 0);
    let mut now: u64 = 0;
    for _ in 0..1000 {
        now += 1000;
        integ.update(
            RateSample {
                x: 10,
                y: -20,
                z: 30,
            },
            now,
        );
    }
    assert_eq!(integ.roll_nanodeg(), 0);
    assert_eq!(integ.pitch_nanodeg(), 0);
    assert_eq!(integ.yaw_nanodeg(), 0);
    assert_eq!(integ.last_time_us(), 1_000_000);
}

#[test]
fn constant_rate_integrates_linearly() {
    // Net rate of one radian per second on each axis, one second per
    // iteration: each iteration adds exactly
    // 10^12 * 180_000_000_000 / 3_141_592_653_590 nanodegrees,
    // about 57.2957795 degrees (180 / pi).
    let bias = BiasVector { x: 0, y: 0, z: 0 };
    let mut integ = OrientationIntegrator::new(bias, 0);
    let mut now: u64 = 0;
    for _ in 0..5 {
        now += 1_000_000;
        integ.update(
            RateSample {
                x: 1_000_000,
                y: 1_000_000,
                z: 1_000_000,
            },
            now,
        );
    }
    assert_eq!(integ.roll_nanodeg(), 5 * 57_295_779_513);
    assert_eq!(integ.pitch_nanodeg(), 5 * 57_295_779_513);
    assert_eq!(integ.yaw_nanodeg(), 5 * 57_295_779_513);
}

#[test]
fn stalled_clock_is_a_no_op() {
    // The clock does not advance: the iteration must neither panic nor
    // change any angle.
    let bias = BiasVector { x: 1, y: 2, z: 3 };
    let mut integ = OrientationIntegrator::new(bias, 777);
    integ.update(
        RateSample {
            x: 5000,
            y: -5000,
            z: 12345,
        },
        1777,
    );
    let roll = integ.roll_nanodeg();
    let pitch = integ.pitch_nanodeg();
    let yaw = integ.yaw_nanodeg();
    integ.update(
        RateSample {
            x: 99999,
            y: -99999,
            z: 31415,
        },
        1777,
    );
    assert_eq!(integ.roll_nanodeg(), roll);
    assert_eq!(integ.pitch_nanodeg(), pitch);
    assert_eq!(integ.yaw_nanodeg(), yaw);
    assert_eq!(integ.last_time_us(), 1777);
}

#[test]
fn bias_is_subtracted_per_axis() {
    // Net rate -0.25 rad/s on x, +0.25 rad/s on y, zero on z, over
    // 2000 microseconds: 500_000 raw units scaled to nanodegrees.
    let bias = BiasVector {
        x: 250_000,
        y: -250_000,
        z: 42,
    };
    let mut integ = OrientationIntegrator::new(bias, 0);
    integ.update(RateSample { x: 0, y: 0, z: 42 }, 2000);
    assert_eq!(integ.roll_nanodeg(), -28_647_889);
    assert_eq!(integ.pitch_nanodeg(), 28_647_889);
    assert_eq!(integ.yaw_nanodeg(), 0);
}

#[test]
fn truncation_is_per_iteration_and_toward_zero() {
    // One raw unit (one microradian per second over one microsecond)
    // scales to well under one nanodegree, so it truncates to zero on
    // every iteration, on both sides of zero.
    let bias = BiasVector { x: 0, y: 0, z: 0 };
    let mut integ = OrientationIntegrator::new(bias, 0);
    let mut now: u64 = 0;
    for _ in 0..10 {
        now += 1;
        integ.update(RateSample { x: 1, y: -1, z: 0 }, now);
    }
    assert_eq!(integ.roll_nanodeg(), 0);
    assert_eq!(integ.pitch_nanodeg(), 0);
}
