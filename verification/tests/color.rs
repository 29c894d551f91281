use myrtio_light_composer::color::{
    blend_colors, hsv2rgb, mirror_half, rgb2hsv, rgb_from_u32, Hsv, Rgb,
};

const RED: Rgb = Rgb { r: 255, g: 0, b: 0 };
const BLUE: Rgb = Rgb { r: 0, g: 0, b: 255 };
const BLACK: Rgb = Rgb { r: 0, g: 0, b: 0 };
const WHITE: Rgb = Rgb {
    r: 255,
    g: 255,
    b: 255,
};

#[test]
fn test_blend_colors() {
    assert_eq!(blend_colors(RED, BLUE, 0), RED);
    assert_eq!(blend_colors(RED, BLUE, 255), BLUE);
    assert_eq!(
        blend_colors(RED, BLUE, 128),
        Rgb {
            r: 127,
            g: 0,
            b: 128
        }
    );

    assert_eq!(
        blend_colors(BLACK, WHITE, 128),
        Rgb {
            r: 128,
            g: 128,
            b: 128
        }
    );
    assert_eq!(blend_colors(WHITE, BLACK, 255), BLACK);
    assert_eq!(blend_colors(WHITE, BLACK, 0), WHITE);
}

#[test]
fn test_mirror_half() {
    let mut leds = vec![RED; 4];
    mirror_half(&mut leds);
    assert_eq!(leds, vec![RED, RED, RED, RED]);

    leds[0] = BLUE;
    leds[1] = WHITE;
    mirror_half(&mut leds);
    assert_eq!(leds, vec![BLUE, WHITE, WHITE, BLUE]);

    let mut leds = vec![BLUE, WHITE, RED, RED, RED];
    mirror_half(&mut leds);
    assert_eq!(leds, vec![BLUE, WHITE, RED, WHITE, BLUE]);
}

#[test]
fn test_mirror_half_empty() {
    let mut leds: Vec<Rgb> = Vec::new();
    mirror_half(&mut leds);
    assert!(leds.is_empty());
}

#[test]
fn test_rgb_from_u32() {
    assert_eq!(
        rgb_from_u32(0x00112233),
        Rgb {
            r: 0x11,
            g: 0x22,
            b: 0x33
        }
    );
    assert_eq!(rgb_from_u32(0), BLACK);
    assert_eq!(rgb_from_u32(0x00FFFFFF), WHITE);
}

#[test]
fn test_rgb2hsv_primaries() {
    assert_eq!(
        rgb2hsv(RED),
        Hsv {
            hue: 0,
            sat: 255,
            val: 255
        }
    );
    assert_eq!(
        rgb2hsv(Rgb { r: 0, g: 255, b: 0 }),
        Hsv {
            hue: 85,
            sat: 255,
            val: 255
        }
    );
    assert_eq!(
        rgb2hsv(BLUE),
        Hsv {
            hue: 171,
            sat: 255,
            val: 255
        }
    );
    assert_eq!(
        rgb2hsv(WHITE),
        Hsv {
            hue: 0,
            sat: 0,
            val: 255
        }
    );
    assert_eq!(
        rgb2hsv(BLACK),
        Hsv {
            hue: 0,
            sat: 0,
            val: 0
        }
    );
}

#[test]
fn test_hsv_round_trip_exact_colors() {
    for c in [RED, Rgb { r: 0, g: 255, b: 0 }, WHITE, BLACK] {
        assert_eq!(hsv2rgb(rgb2hsv(c)), c);
    }
}

#[test]
fn test_hsv_round_trip_near_primaries() {
    // The other pure primaries come back within the documented +/-4
    // precision of the integer conversion.
    for c in [
        BLUE,
        Rgb {
            r: 255,
            g: 255,
            b: 0,
        },
        Rgb {
            r: 0,
            g: 255,
            b: 255,
        },
        Rgb {
            r: 255,
            g: 0,
            b: 255,
        },
    ] {
        let back = hsv2rgb(rgb2hsv(c));
        assert!((back.r as i16 - c.r as i16).abs() <= 6);
        assert!((back.g as i16 - c.g as i16).abs() <= 6);
        assert!((back.b as i16 - c.b as i16).abs() <= 6);
    }
}
