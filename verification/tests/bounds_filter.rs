use myrtio_light_composer::color::Rgb;
use myrtio_light_composer::filter::{
    BrightnessFilter, BrightnessFilterConfig, BrightnessRange, ColorCorrection,
};
use myrtio_light_composer::{center_of, RenderingBounds};

#[test]
fn test_bounds_count_and_center() {
    let bounds = RenderingBounds { start: 2, end: 12 };
    assert_eq!(bounds.count(), 10);
    assert_eq!(bounds.center(), 5);
    let odd = RenderingBounds { start: 0, end: 7 };
    assert_eq!(odd.count(), 7);
    assert_eq!(odd.center(), 4);
}

#[test]
fn test_center_of_slices() {
    assert_eq!(center_of(&[0u8; 0]), 0);
    assert_eq!(center_of(&[0u8; 1]), 1);
    assert_eq!(center_of(&[0u8; 4]), 2);
    assert_eq!(center_of(&[0u8; 5]), 3);
}

#[test]
fn test_brightness_range_accessors() {
    let range = BrightnessRange::new(10, 200);
    assert_eq!(range.min(), 10);
    assert_eq!(range.max(), 200);
}

#[test]
fn test_brightness_filter_envelope_correction() {
    let mut filter = BrightnessFilter::new(
        0,
        &BrightnessFilterConfig {
            min_brightness: 20,
            scale: 128,
        },
    );
    // A request of 120 is lowered by the floor (100), scaled by 128/256
    // (50), then lifted back (70); a zero duration snaps.
    filter.set(120, 0, 0);
    assert_eq!(filter.brightness.current, 70);
    // Requests below the floor clamp to the floor itself.
    filter.set(5, 0, 0);
    assert_eq!(filter.brightness.current, 20);
    // Uncorrected targets bypass the envelope entirely.
    filter.set_uncorrected(0, 0, 0);
    assert_eq!(filter.brightness.current, 0);
}

#[test]
fn test_brightness_filter_apply_levels() {
    let config = BrightnessFilterConfig {
        min_brightness: 0,
        scale: 255,
    };
    let full = BrightnessFilter::new(255, &config);
    let mut frame = vec![Rgb::new(10, 20, 30); 3];
    full.apply(&mut frame);
    assert_eq!(frame[0], Rgb::new(10, 20, 30));

    let dark = BrightnessFilter::new(0, &config);
    dark.apply(&mut frame);
    assert_eq!(frame[0], Rgb::new(0, 0, 0));

    let half = BrightnessFilter::new(128, &config);
    let mut frame = vec![Rgb::new(255, 100, 0); 2];
    half.apply(&mut frame);
    assert_eq!(frame[0], Rgb::new(128, 50, 0));
}

#[test]
fn test_color_correction_identity_and_active() {
    let identity = ColorCorrection::new(Rgb::new(255, 255, 255));
    assert!(!identity.is_active());
    let mut frame = vec![Rgb::new(40, 50, 60)];
    identity.apply(&mut frame);
    assert_eq!(frame[0], Rgb::new(40, 50, 60));

    let warm = ColorCorrection::new(Rgb::new(255, 128, 64));
    assert!(warm.is_active());
    let mut frame = vec![Rgb::new(255, 255, 255)];
    warm.apply(&mut frame);
    assert_eq!(frame[0], Rgb::new(255, 128, 64));
}
