//! Fixed-point 8-bit math kernel: scaling, blending, progress and easing.
//!
//! All functions work on 8-bit values where 255 stands for 1.0, using only
//! integer arithmetic.

use vstd::prelude::*;

verus! {

/// `value * (1 + scale) / 256`: scales `value` by `scale`, where a scale of
/// 255 keeps the value and a scale of 0 clears it.
pub open spec fn scale8_spec(value: u8, scale: u8) -> u8 {
    ((value * (1 + scale)) / 256) as u8
}

/// The blended value as an unbounded integer: linear interpolation from `a`
/// (at `amount_of_b = 0`) to `b` (at `amount_of_b = 255`), with +0.5
/// rounding in 16.16 fixed point.
pub open spec fn blend8_val(a: u8, b: u8, amount_of_b: u8) -> int {
    (a * 65536 + (b - a) * amount_of_b * 257 + 32768) / 65536
}

/// Integer linear interpolation from `a` (at `amount_of_b = 0`) to `b`
/// (at `amount_of_b = 255`), with +0.5 rounding in 16.16 fixed point.
pub open spec fn blend8_spec(a: u8, b: u8, amount_of_b: u8) -> u8 {
    blend8_val(a, b, amount_of_b) as u8
}

/// The blended value always lies between 0 and 255, so the 8-bit result
/// never clips.
pub proof fn lemma_blend8_val_bounds(a: u8, b: u8, amount_of_b: u8)
    ensures
        0 <= blend8_val(a, b, amount_of_b) <= 255,
        blend8_spec(a, b, amount_of_b) == blend8_val(a, b, amount_of_b),
{
    assert(0 <= (a * 65536 + (b - a) * amount_of_b * 257 + 32768) / 65536 <= 255) by (
    nonlinear_arith)
        requires
            a <= 255,
            b <= 255,
            amount_of_b <= 255,
    ;
}

/// Saturating ratio `elapsed / duration` mapped onto 0..=255; 0 when the
/// duration is zero, 255 once the elapsed time reaches the duration.
pub open spec fn progress8_spec(elapsed_ms: u64, duration_ms: u64) -> u8 {
    if duration_ms == 0 {
        0
    } else if elapsed_ms >= duration_ms {
        255
    } else {
        ((elapsed_ms * 255) / duration_ms as int) as u8
    }
}

/// Symmetric quadratic S-curve on 0..=255 built from `scale8` and a high-bit
/// mirror: quadratic ease-in below 128, mirrored ease-out above.
pub open spec fn ease_in_out_quad_spec(i: u8) -> u8 {
    if i >= 128 {
        (255 - 2 * scale8_spec((255 - i) as u8, (255 - i) as u8)) as u8
    } else {
        (2 * scale8_spec(i, i)) as u8
    }
}

/// Scale an 8-bit value by an 8-bit factor, where 255 acts as 1.0.
pub fn scale8(value: u8, scale: u8) -> (r: u8)
    ensures
        r == scale8_spec(value, scale),
{
    proof {
        assert(value * (1 + scale) <= 255 * 256) by (nonlinear_arith)
            requires
                value <= 255,
                scale <= 255,
        ;
    }
    (((value as u16) * (1 + (scale as u16))) / 256) as u8
}

/// Blend two 8-bit values; `amount_of_b` = 0 gives `a`, 255 gives `b`.
pub fn blend8(a: u8, b: u8, amount_of_b: u8) -> (r: u8)
    ensures
        r == blend8_spec(a, b, amount_of_b),
{
    let base: u32 = (a as u32) * 65536 + 32768;
    let r: u32 = if b >= a {
        proof {
            assert((b - a) * amount_of_b * 257 <= 255 * 255 * 257) by (nonlinear_arith)
                requires
                    a <= b <= 255,
                    amount_of_b <= 255,
            ;
        }
        let delta: u32 = ((b - a) as u32) * (amount_of_b as u32) * 257;
        (base + delta) / 65536
    } else {
        proof {
            assert((a - b) * amount_of_b * 257 <= (a - b) * 65536) by (nonlinear_arith)
                requires
                    b < a <= 255,
                    amount_of_b <= 255,
            ;
            assert(a * 65536 + 32768 + (b - a) * amount_of_b * 257 == a * 65536 + 32768 - (a
                - b) * amount_of_b * 257) by (nonlinear_arith);
        }
        let delta: u32 = ((a - b) as u32) * (amount_of_b as u32) * 257;
        (base - delta) / 65536
    };
    proof {
        assert(a * 65536 + 32768 + (b - a) * amount_of_b * 257 < 256 * 65536) by (nonlinear_arith)
            requires
                a <= 255,
                b <= 255,
                amount_of_b <= 255,
        ;
    }
    r as u8
}

/// Progress of an elapsed time against a total duration, as a value 0..=255.
pub fn progress8(elapsed_ms: u64, duration_ms: u64) -> (r: u8)
    ensures
        r == progress8_spec(elapsed_ms, duration_ms),
{
    if duration_ms == 0 {
        return 0;
    }
    if elapsed_ms >= duration_ms {
        return 255;
    }
    proof {
        assert(elapsed_ms * 255 < duration_ms * 256) by (nonlinear_arith)
            requires
                elapsed_ms < duration_ms,
        ;
        vstd::arithmetic::div_mod::lemma_multiply_divide_lt(
            elapsed_ms * 255,
            duration_ms as int,
            256,
        );
    }
    (((elapsed_ms as u128) * 255) / (duration_ms as u128)) as u8
}

/// Quadratic ease-in-out over 0..=255.
pub fn ease_in_out_quad(i: u8) -> (r: u8)
    ensures
        r == ease_in_out_quad_spec(i),
{
    proof {
        assert(((i & 0x80) != 0) == (i >= 128)) by (bit_vector);
    }
    let j: u8 = if i & 0x80 != 0 {
        255 - i
    } else {
        i
    };
    let jj: u8 = scale8(j, j);
    proof {
        assert(j * (1 + j) <= 127 * 128) by (nonlinear_arith)
            requires
                j <= 127,
        ;
    }
    let jj2: u8 = jj * 2;
    if i & 0x80 != 0 {
        255 - jj2
    } else {
        jj2
    }
}

/// `scale8` keeps a value intact at full scale and clears it at zero scale.
pub proof fn lemma_scale8_bounds(value: u8, scale: u8)
    ensures
        scale8_spec(value, 255) == value,
        scale8_spec(value, 0) == 0,
        scale8_spec(value, scale) <= value,
{
    assert(value * 256 / 256 == value) by (nonlinear_arith);
    assert(value * 1 / 256 == 0) by (nonlinear_arith)
        requires
            value <= 255,
    ;
    assert(value * (1 + scale) / 256 <= value) by (nonlinear_arith)
        requires
            value <= 255,
            scale <= 255,
    ;
}

/// `blend8` returns its first argument at amount 0 and its second at 255.
pub proof fn lemma_blend8_endpoints(a: u8, b: u8)
    ensures
        blend8_spec(a, b, 0) == a,
        blend8_spec(a, b, 255) == b,
{
    assert((a * 65536 + (b - a) * 0 * 257 + 32768) / 65536 == a) by (nonlinear_arith)
        requires
            a <= 255,
    ;
    assert((a * 65536 + (b - a) * 255 * 257 + 32768) / 65536 == b) by (nonlinear_arith)
        requires
            a <= 255,
            b <= 255,
    ;
}

/// `progress8` is 0 before any time has passed and 255 from the moment the
/// full duration has elapsed.
pub proof fn lemma_progress8_endpoints(elapsed_ms: u64, duration_ms: u64)
    ensures
        duration_ms > 0 && elapsed_ms >= duration_ms ==> progress8_spec(elapsed_ms, duration_ms)
            == 255,
        elapsed_ms == 0 ==> progress8_spec(elapsed_ms, duration_ms) == 0,
{
}

/// The easing curve is symmetric around its midpoint: `f(x) + f(255 - x)`
/// is exactly 255 for every `x`.
pub proof fn lemma_ease_in_out_quad_symmetric(x: u8)
    ensures
        ease_in_out_quad_spec(x) + ease_in_out_quad_spec((255 - x) as u8) == 255,
{
    let y = (255 - x) as u8;
    if x >= 128 {
        assert(y < 128);
        assert(scale8_spec((255 - x) as u8, (255 - x) as u8) <= 63) by (nonlinear_arith)
            requires
                128 <= x <= 255,
        ;
    } else {
        assert(y >= 128);
        assert(scale8_spec(x, x) <= 63) by (nonlinear_arith)
            requires
                x < 128,
        ;
    }
}

/// `progress8` never decreases as time passes.
pub proof fn lemma_progress8_monotone(e1: u64, e2: u64, duration_ms: u64)
    requires
        e1 <= e2,
    ensures
        progress8_spec(e1, duration_ms) <= progress8_spec(e2, duration_ms),
{
    if duration_ms > 0 && e2 < duration_ms {
        assert(e1 * 255 <= e2 * 255) by (nonlinear_arith)
            requires
                e1 <= e2,
        ;
        vstd::arithmetic::div_mod::lemma_div_is_ordered(
            e1 * 255,
            e2 * 255,
            duration_ms as int,
        );
        assert(e2 * 255 < duration_ms * 256) by (nonlinear_arith)
            requires
                e2 < duration_ms,
        ;
        vstd::arithmetic::div_mod::lemma_multiply_divide_lt(
            e2 * 255,
            duration_ms as int,
            256,
        );
    }
}

/// Blending moves monotonically from `a` toward `b` as the amount grows.
pub proof fn lemma_blend8_monotone(a: u8, b: u8, t1: u8, t2: u8)
    requires
        t1 <= t2,
    ensures
        a <= b ==> blend8_spec(a, b, t1) <= blend8_spec(a, b, t2),
        a >= b ==> blend8_spec(a, b, t1) >= blend8_spec(a, b, t2),
{
    lemma_blend8_val_bounds(a, b, t1);
    lemma_blend8_val_bounds(a, b, t2);
    let n1 = a * 65536 + (b - a) * t1 * 257 + 32768;
    let n2 = a * 65536 + (b - a) * t2 * 257 + 32768;
    if a <= b {
        assert(n1 <= n2) by (nonlinear_arith)
            requires
                a <= b,
                t1 <= t2,
                n1 == a * 65536 + (b - a) * t1 * 257 + 32768,
                n2 == a * 65536 + (b - a) * t2 * 257 + 32768,
        ;
        vstd::arithmetic::div_mod::lemma_div_is_ordered(n1, n2, 65536);
    }
    if a >= b {
        assert(n2 <= n1) by (nonlinear_arith)
            requires
                a >= b,
                t1 <= t2,
                n1 == a * 65536 + (b - a) * t1 * 257 + 32768,
                n2 == a * 65536 + (b - a) * t2 * 257 + 32768,
        ;
        vstd::arithmetic::div_mod::lemma_div_is_ordered(n2, n1, 65536);
    }
}

} // verus!
