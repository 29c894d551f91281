//! Cross-checks the library's integer HSV conversion against the
//! smart-leds implementation it matches.

use myrtio_light_composer::color::{hsv2rgb, Hsv};

#[test]
fn test_hsv2rgb_matches_smart_leds() {
    for hue in (0..=255u16).step_by(1) {
        for (sat, val) in [(255u8, 255u8), (230, 42), (128, 200), (0, 255), (255, 0), (17, 93)] {
            let ours = hsv2rgb(Hsv {
                hue: hue as u8,
                sat,
                val,
            });
            let theirs = smart_leds::hsv::hsv2rgb(smart_leds::hsv::Hsv {
                hue: hue as u8,
                sat,
                val,
            });
            assert_eq!(ours.r, theirs.r, "hue {hue} sat {sat} val {val}");
            assert_eq!(ours.g, theirs.g, "hue {hue} sat {sat} val {val}");
            assert_eq!(ours.b, theirs.b, "hue {hue} sat {sat} val {val}");
        }
    }
}

#[test]
fn test_hsv2rgb_sample_value() {
    let c = hsv2rgb(Hsv {
        hue: 89,
        sat: 230,
        val: 42,
    });
    assert_eq!((c.r, c.g, c.b), (4, 42, 7));
}
