use myrtio_light_composer::color::Rgb;
use myrtio_light_composer::transition::ValueTransition;

#[test]
fn test_value_transition_u8() {
    let mut transition = ValueTransition::new_u8(0);
    assert_eq!(transition.current(), 0);
    assert_eq!(transition.is_transitioning(), false);
    transition.set(100, 100, 0);
    assert_eq!(transition.is_transitioning(), true);

    transition.tick(50);
    assert_eq!(transition.current(), 50);

    transition.tick(100);
    assert_eq!(transition.current(), 100);
    assert_eq!(transition.is_transitioning(), false);
}

#[test]
fn test_value_transition_rgb() {
    let mut transition = ValueTransition::new_rgb(Rgb::new(0, 0, 0));
    assert_eq!(transition.current(), Rgb::new(0, 0, 0));
    assert_eq!(transition.is_transitioning(), false);
    transition.set(Rgb::new(255, 255, 255), 100, 0);
    assert_eq!(transition.is_transitioning(), true);
}

#[test]
fn test_transition_zero_duration_snaps() {
    let mut t = ValueTransition::new_u8(10);
    t.set(42, 0, 5);
    assert_eq!(t.current(), 42);
    assert_eq!(t.is_transitioning(), false);
}

#[test]
fn test_transition_monotone_rise() {
    let mut t = ValueTransition::new_u8(0);
    t.set(200, 1000, 0);
    let mut last = 0u8;
    for step in 0..=20u64 {
        t.tick(step * 50);
        assert!(t.current() >= last);
        last = t.current();
    }
    assert_eq!(t.current(), 200);
}

#[test]
fn test_transition_retargets_from_current() {
    let mut t = ValueTransition::new_u8(0);
    t.set(200, 100, 0);
    t.tick(50);
    let mid = t.current();
    assert!(mid > 0 && mid < 200);
    // Retarget mid-flight: the new transition starts from the present
    // interpolated value, not from the old target.
    t.set(0, 100, 50);
    t.tick(50);
    assert_eq!(t.current(), mid);
    t.tick(150);
    assert_eq!(t.current(), 0);
}
