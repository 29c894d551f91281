use myrtio_light_composer::channel::Channel;
use myrtio_light_composer::{LightChangeIntent, LightStateIntent};

fn brightness_intent(b: u8) -> LightChangeIntent {
    LightChangeIntent::State(LightStateIntent {
        power: None,
        brightness: Some(b),
        color: None,
        effect_id: None,
    })
}

fn intent_brightness(intent: &LightChangeIntent) -> Option<u8> {
    match intent {
        LightChangeIntent::State(s) => s.brightness,
        _ => None,
    }
}

#[test]
fn test_channel_fifo_order() {
    let mut ch = Channel::new();
    assert!(ch.try_send(brightness_intent(1)).is_ok());
    assert!(ch.try_send(brightness_intent(2)).is_ok());
    let first = ch.try_receive().unwrap();
    let second = ch.try_receive().unwrap();
    assert_eq!(intent_brightness(&first), Some(1));
    assert_eq!(intent_brightness(&second), Some(2));
}

#[test]
fn test_channel_empty_receive() {
    let mut ch = Channel::new();
    assert!(ch.try_receive().is_err());
}

#[test]
fn test_channel_full_send_returns_value() {
    let mut ch = Channel::new();
    for i in 0..16u8 {
        assert!(ch.try_send(brightness_intent(i)).is_ok());
    }
    let err = ch.try_send(brightness_intent(99)).unwrap_err();
    assert_eq!(intent_brightness(&err.0), Some(99));
    // The channel still holds the sixteen earlier intents, in order.
    for i in 0..16u8 {
        let got = ch.try_receive().unwrap();
        assert_eq!(intent_brightness(&got), Some(i));
    }
    assert!(ch.try_receive().is_err());
}

#[test]
fn test_channel_drain() {
    let mut ch = Channel::new();
    for i in 0..5u8 {
        assert!(ch.try_send(brightness_intent(i)).is_ok());
    }
    let drained = ch.drain();
    assert_eq!(drained.len(), 5);
    for (i, intent) in drained.iter().enumerate() {
        assert_eq!(intent_brightness(intent), Some(i as u8));
    }
    assert!(ch.try_receive().is_err());
}
