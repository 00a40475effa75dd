use scene_core::spin::decay_amplitude;
use scene_core::spin::HALF_PI_ANGLE;
use scene_core::spin::SPIN_EPSILON;

#[test]
fn decay_caps_large_amplitudes() {
    // Above one radian the correction is capped at 1/20 radian per tick.
    assert_eq!(decay_amplitude(HALF_PI_ANGLE), 1_520_796);
    assert_eq!(decay_amplitude(-HALF_PI_ANGLE), -1_520_796);
    assert_eq!(decay_amplitude(2_000_000), 1_950_000);
}

#[test]
fn decay_is_proportional_below_one_radian() {
    assert_eq!(decay_amplitude(1_000_000), 950_000);
    assert_eq!(decay_amplitude(100), 95);
    assert_eq!(decay_amplitude(-100), -95);
    assert_eq!(decay_amplitude(0), 0);
}

#[test]
fn decay_magnitude_never_grows() {
    let mut a: i64 = HALF_PI_ANGLE;
    for _ in 0..500 {
        let next = decay_amplitude(a);
        assert!(next.abs() <= a.abs());
        assert!(next >= 0);
        a = next;
    }
    let mut b: i64 = -HALF_PI_ANGLE;
    for _ in 0..500 {
        let next = decay_amplitude(b);
        assert!(next.abs() <= b.abs());
        assert!(next <= 0);
        b = next;
    }
}

#[test]
fn decay_reaches_rest_in_bounded_ticks() {
    let mut a: i64 = HALF_PI_ANGLE;
    let mut ticks: i64 = 0;
    while a.abs() > SPIN_EPSILON {
        a = decay_amplitude(a);
        ticks += 1;
        assert!(ticks <= 31_415);
    }
    assert!(a.abs() <= SPIN_EPSILON);
    let mut b: i64 = -HALF_PI_ANGLE;
    let mut ticks_b: i64 = 0;
    while b.abs() > SPIN_EPSILON {
        b = decay_amplitude(b);
        ticks_b += 1;
        assert!(ticks_b <= 31_415);
    }
    assert_eq!(ticks, ticks_b);
}
