use myrtio_light_composer::EffectId;

#[test]
fn test_effect_id_parse_aurora() {
    assert_eq!(EffectId::parse_from_str("aurora"), Some(EffectId::Aurora));
}

#[test]
fn test_effect_id_from_raw_aurora() {
    assert_eq!(EffectId::from_raw(7), Some(EffectId::Aurora));
}

#[test]
fn test_effect_id_parse_lava_lamp() {
    assert_eq!(
        EffectId::parse_from_str("lava_lamp"),
        Some(EffectId::LavaLamp)
    );
}

#[test]
fn test_effect_id_from_raw_lava_lamp() {
    assert_eq!(EffectId::from_raw(8), Some(EffectId::LavaLamp));
}

#[test]
fn test_effect_id_as_str_lava_lamp() {
    assert_eq!(EffectId::LavaLamp.as_str(), "lava_lamp");
}

#[test]
fn test_effect_id_parse_sunset() {
    assert_eq!(EffectId::parse_from_str("sunset"), None);
}

#[test]
fn test_effect_id_from_raw_sunset() {
    assert_eq!(EffectId::from_raw(9), None);
}

#[test]
fn test_effect_id_as_str_sunset() {
    for raw in 0..=8u8 {
        let id = EffectId::from_raw(raw).unwrap();
        assert_ne!(id.as_str(), "sunset");
    }
}

#[test]
fn test_effect_id_codes_round_trip() {
    for raw in 0..=8u8 {
        let id = EffectId::from_raw(raw).unwrap();
        assert_eq!(id.to_raw(), raw);
        assert_eq!(EffectId::parse_from_str(id.as_str()), Some(id));
    }
    assert_eq!(EffectId::from_raw(200), None);
    assert_eq!(EffectId::parse_from_str(""), None);
    assert_eq!(EffectId::parse_from_str("no_such_effect"), None);
}

#[test]
fn test_effect_id_names() {
    assert_eq!(EffectId::Static.as_str(), "static");
    assert_eq!(EffectId::RainbowMirrored.as_str(), "rainbow_mirrored");
    assert_eq!(EffectId::RainbowLong.as_str(), "rainbow_long");
    assert_eq!(EffectId::RainbowShort.as_str(), "rainbow_short");
    assert_eq!(
        EffectId::RainbowLongInverse.as_str(),
        "rainbow_long_inverse"
    );
    assert_eq!(
        EffectId::RainbowShortInverse.as_str(),
        "rainbow_short_inverse"
    );
    assert_eq!(EffectId::VelvetAnalog.as_str(), "velvet_analog");
}
