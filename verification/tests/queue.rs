use myrtio_light_composer::color::Rgb;
use myrtio_light_composer::{EffectId, Operation, OperationStack};

#[test]
fn test_push_and_pop_order() {
    let mut stack = OperationStack::new();
    assert_eq!(stack.current(), None);
    assert!(stack.push_brightness(10).is_ok());
    assert!(stack.push_color(Rgb::new(1, 2, 3)).is_ok());
    assert_eq!(stack.current(), Some(Operation::SetBrightness(10)));

    assert_eq!(stack.pop(), Some(Operation::SetBrightness(10)));
    assert_eq!(stack.pop(), Some(Operation::SetColor(Rgb::new(1, 2, 3))));
    assert_eq!(stack.pop(), None);
    assert_eq!(stack.current(), None);
}

#[test]
fn test_push_full_returns_operation() {
    let mut stack = OperationStack::new();
    for _ in 0..10 {
        assert!(stack.push_power_on().is_ok());
    }
    assert_eq!(
        stack.push_brightness(3),
        Err(Operation::SetBrightness(3))
    );
}

#[test]
fn test_push_effect_enqueues_three_steps() {
    let mut stack = OperationStack::new();
    assert!(stack.push_effect(EffectId::Aurora, 180).is_ok());
    assert_eq!(stack.pop(), Some(Operation::SetBrightness(0)));
    assert_eq!(stack.pop(), Some(Operation::SwitchEffect(EffectId::Aurora)));
    assert_eq!(stack.pop(), Some(Operation::SetBrightness(180)));
    assert_eq!(stack.pop(), None);
}

#[test]
fn test_push_effect_atomic_on_full_queue() {
    let mut stack = OperationStack::new();
    for _ in 0..8 {
        assert!(stack.push_power_off().is_ok());
    }
    // Two free slots are not enough for the three-step swap: nothing may
    // be enqueued.
    assert_eq!(
        stack.push_effect(EffectId::Static, 99),
        Err(Operation::SwitchEffect(EffectId::Static))
    );
    for _ in 0..8 {
        assert_eq!(stack.pop(), Some(Operation::PowerOff));
    }
    assert_eq!(stack.pop(), None);
}
