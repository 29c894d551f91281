use myrtio_light_composer::color::{Hsv, Rgb};
use myrtio_light_composer::{fill_gradient_fp, fill_gradient_three_fp, GradientDirection};

fn full(hue: u8) -> Hsv {
    Hsv {
        hue,
        sat: 255,
        val: 255,
    }
}

#[test]
fn test_three_point_gradient_ordering() {
    let mut leds = vec![Rgb::new(9, 9, 9); 5];
    fill_gradient_three_fp(&mut leds, full(0), full(85), full(171));
    // Index 0 is pure red, index 2 pure green; index 4 lands on the blue
    // anchor, which the six-sector conversion renders with a small red
    // remainder.
    assert_eq!(leds[0], Rgb::new(255, 0, 0));
    assert_eq!(leds[2], Rgb::new(0, 255, 0));
    assert_eq!(leds[4], Rgb::new(6, 0, 255));
    for led in &leds {
        let max = led.r.max(led.g).max(led.b);
        assert_eq!(max, 255);
    }
}

#[test]
fn test_gradient_swaps_out_of_order_positions() {
    let mut forward = vec![Rgb::new(0, 0, 0); 6];
    let mut swapped = vec![Rgb::new(0, 0, 0); 6];
    fill_gradient_fp(&mut forward, 0, full(10), 5, full(90), GradientDirection::Forward);
    fill_gradient_fp(&mut swapped, 5, full(90), 0, full(10), GradientDirection::Forward);
    assert_eq!(forward, swapped);
}

#[test]
fn test_gradient_degenerate_single_pixel() {
    let mut leds = vec![Rgb::new(0, 0, 0); 3];
    fill_gradient_fp(&mut leds, 1, full(0), 1, full(85), GradientDirection::Forward);
    // A zero pixel distance acts as divisor one: the single target pixel
    // takes the start color, the rest stay untouched.
    assert_eq!(leds[0], Rgb::new(0, 0, 0));
    assert_eq!(leds[1], Rgb::new(255, 0, 0));
    assert_eq!(leds[2], Rgb::new(0, 0, 0));
}

#[test]
fn test_gradient_black_endpoint_inherits_hue() {
    // Sweeping into black keeps the start hue throughout instead of
    // spinning through unrelated hues.
    let mut leds = vec![Rgb::new(0, 0, 0); 4];
    let black = Hsv {
        hue: 200,
        sat: 255,
        val: 0,
    };
    fill_gradient_fp(&mut leds, 0, full(0), 3, black, GradientDirection::Forward);
    assert_eq!(leds[0], Rgb::new(255, 0, 0));
    // Every pixel keeps a red-dominant hue while only the value falls.
    for led in &leds {
        assert!(led.r >= led.g && led.r >= led.b);
    }
    assert_eq!(leds[3].g, 0);
}

#[test]
fn test_gradient_empty_strip_is_noop() {
    let mut leds: Vec<Rgb> = Vec::new();
    fill_gradient_fp(&mut leds, 0, full(0), 10, full(100), GradientDirection::Shortest);
    assert!(leds.is_empty());
    fill_gradient_three_fp(&mut leds, full(0), full(85), full(171));
    assert!(leds.is_empty());
}
