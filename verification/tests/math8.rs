use myrtio_light_composer::math8::{blend8, ease_in_out_quad, progress8, scale8};

#[test]
fn test_scale8() {
    assert_eq!(scale8(255, 128), 128);
    assert_eq!(scale8(0, 128), 0);
    assert_eq!(scale8(128, 128), 64);
    assert_eq!(scale8(128, 255), 128);
    assert_eq!(scale8(128, 0), 0);
}

#[test]
fn test_blend8() {
    assert_eq!(blend8(255, 128, 128), 191);
    assert_eq!(blend8(0, 128, 255), 128);
    assert_eq!(blend8(255, 0, 128), 127);
    assert_eq!(blend8(255, 128, 0), 255);
}

#[test]
fn test_progress8() {
    assert_eq!(progress8(0, 100), 0);
    assert_eq!(progress8(50, 100), 127);
    assert_eq!(progress8(100, 100), 255);
}

#[test]
fn test_scale8_full_and_zero_scale() {
    for v in 0..=255u8 {
        assert_eq!(scale8(v, 255), v);
        assert_eq!(scale8(v, 0), 0);
    }
}

#[test]
fn test_blend8_endpoints() {
    for a in (0..=255u8).step_by(15) {
        for b in (0..=255u8).step_by(15) {
            assert_eq!(blend8(a, b, 0), a);
            assert_eq!(blend8(a, b, 255), b);
        }
    }
}

#[test]
fn test_progress8_saturates() {
    assert_eq!(progress8(0, 0), 0);
    assert_eq!(progress8(17, 0), 0);
    assert_eq!(progress8(200, 100), 255);
    assert_eq!(progress8(u64::MAX, 1), 255);
}

#[test]
fn test_ease_in_out_quad_shape() {
    assert_eq!(ease_in_out_quad(0), 0);
    assert_eq!(ease_in_out_quad(255), 255);
    let mid = ease_in_out_quad(128);
    assert!(mid >= 127 && mid <= 129);
}

#[test]
fn test_ease_in_out_quad_symmetry() {
    for x in 0..=255u8 {
        let sum = ease_in_out_quad(x) as u16 + ease_in_out_quad(255 - x) as u16;
        assert_eq!(sum, 255);
    }
}
