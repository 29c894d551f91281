use myrtio_light_composer::color::Rgb;
use myrtio_light_composer::{
    AuroraEffect, EffectId, EffectSlot, FlowEffect, FlowVariant, RainbowEffect, RainbowVariant,
    StaticColorEffect, VelvetAnalogEffect,
};

fn strip(n: usize) -> Vec<Rgb> {
    vec![Rgb::new(0, 0, 0); n]
}

#[test]
fn test_static_fills_with_current_color() {
    let mut effect = StaticColorEffect::new(Rgb::new(10, 20, 30));
    let mut leds = strip(8);
    effect.render(0, &mut leds);
    for led in &leds {
        assert_eq!(*led, Rgb::new(10, 20, 30));
    }
}

#[test]
fn test_static_crossfade_reaches_target() {
    let mut effect = StaticColorEffect::new(Rgb::new(0, 0, 0));
    effect.set_color(Rgb::new(200, 100, 50), 100, 0);
    assert!(effect.is_transitioning());
    let mut leds = strip(4);
    effect.render(100, &mut leds);
    assert!(!effect.is_transitioning());
    assert_eq!(leds[0], Rgb::new(200, 100, 50));
}

#[test]
fn test_rainbow_periodicity() {
    let effect = RainbowEffect::new(RainbowVariant::Short);
    let mut at_zero = strip(60);
    let mut at_cycle = strip(60);
    let mut at_half = strip(60);
    effect.render(0, &mut at_zero);
    effect.render(12_000, &mut at_cycle);
    effect.render(6_000, &mut at_half);
    assert_eq!(at_zero, at_cycle);
    assert_ne!(at_zero, at_half);
}

#[test]
fn test_rainbow_inverse_reverses() {
    let forward = RainbowEffect::new(RainbowVariant::Short);
    let inverse = RainbowEffect::new(RainbowVariant::Short).with_inverse();
    let mut plain = strip(30);
    let mut reversed = strip(30);
    forward.render(500, &mut plain);
    inverse.render(500, &mut reversed);
    for i in 0..30 {
        assert_eq!(plain[i], reversed[29 - i]);
    }
}

#[test]
fn test_rainbow_mirrored_is_symmetric() {
    let effect = RainbowEffect::new(RainbowVariant::Mirrored);
    let mut leds = strip(40);
    effect.render(3_000, &mut leds);
    for i in 0..20 {
        assert_eq!(leds[i], leds[39 - i]);
    }
}

#[test]
fn test_velvet_black_anchor_stays_dark() {
    let mut effect = VelvetAnalogEffect::new(Rgb::new(0, 0, 0));
    for now in [0u64, 137, 5_000, 13_999, 27_001, 100_000] {
        let mut leds = strip(60);
        effect.render(now, &mut leds);
        for led in &leds {
            assert_eq!(*led, Rgb::new(0, 0, 0));
        }
    }
}

#[test]
fn test_velvet_colored_anchor_lights_up() {
    let mut effect = VelvetAnalogEffect::new(Rgb::new(200, 120, 40));
    let mut leds = strip(60);
    effect.render(1_000, &mut leds);
    assert!(leds.iter().any(|l| l.r > 0 || l.g > 0 || l.b > 0));
}

#[test]
fn test_aurora_is_deterministic() {
    let effect = AuroraEffect::new();
    let mut a = strip(50);
    let mut b = strip(50);
    effect.render(4_321, &mut a);
    effect.render(4_321, &mut b);
    assert_eq!(a, b);
    let mut c = strip(50);
    effect.render(9_999, &mut c);
    assert_ne!(a, c);
}

#[test]
fn test_flow_palettes_differ() {
    let aurora = FlowEffect::new(FlowVariant::Aurora);
    let lava = FlowEffect::new(FlowVariant::LavaLamp);
    let mut a = strip(50);
    let mut l = strip(50);
    aurora.render(2_000, &mut a);
    lava.render(2_000, &mut l);
    assert_ne!(a, l);
}

#[test]
fn test_slot_ids_round_trip() {
    for raw in 0..=8u8 {
        let id = EffectId::from_raw(raw).unwrap();
        let slot = id.to_slot(Rgb::new(1, 2, 3));
        assert_eq!(slot.id(), id);
    }
}

#[test]
fn test_slot_precise_colors() {
    let anchor = Rgb::new(5, 5, 5);
    assert!(EffectId::Static.to_slot(anchor).requires_precise_colors());
    assert!(EffectId::VelvetAnalog.to_slot(anchor).requires_precise_colors());
    assert!(!EffectId::RainbowShort.to_slot(anchor).requires_precise_colors());
    assert!(!EffectId::Aurora.to_slot(anchor).requires_precise_colors());
    assert!(!EffectId::LavaLamp.to_slot(anchor).requires_precise_colors());
}

#[test]
fn test_slot_set_color_only_affects_color_effects() {
    let anchor = Rgb::new(0, 0, 0);
    let mut slot = EffectId::Static.to_slot(anchor);
    slot.set_color(Rgb::new(9, 9, 9), 100, 0);
    assert!(slot.is_transitioning());
    let mut rainbow = EffectId::RainbowShort.to_slot(anchor);
    rainbow.set_color(Rgb::new(9, 9, 9), 100, 0);
    assert!(!rainbow.is_transitioning());
}

#[test]
fn test_slot_default_is_mirrored_rainbow() {
    let slot = EffectId::RainbowMirrored.to_slot(Rgb::new(0, 0, 0));
    assert!(matches!(slot, EffectSlot::Rainbow(_)));
    assert_eq!(slot.id(), EffectId::RainbowMirrored);
}
