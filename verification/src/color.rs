//! Color value types and integer color conversions.
//!
//! `Rgb` and `Hsv` are plain 8-bit-per-channel value types; the hue lives on
//! a 256-step wheel. All conversions use integer arithmetic only.

use vstd::prelude::*;

use crate::math8::{blend8, blend8_spec};

verus! {

/// An 8-bit-per-channel RGB color.
#[derive(Clone, Copy, Debug, PartialEq, Eq, Structural)]
pub struct Rgb {
    pub r: u8,
    pub g: u8,
    pub b: u8,
}

/// An 8-bit-per-channel HSV color; `hue` is on a 256-step wheel.
#[derive(Clone, Copy, Debug, PartialEq, Eq, Structural)]
pub struct Hsv {
    pub hue: u8,
    pub sat: u8,
    pub val: u8,
}

impl Rgb {
    /// Build a color from its three channels.
    pub fn new(r: u8, g: u8, b: u8) -> (c: Rgb)
        ensures
            c == (Rgb { r, g, b }),
    {
        Rgb { r, g, b }
    }

    /// The all-black color.
    pub fn black() -> (c: Rgb)
        ensures
            c == (Rgb { r: 0, g: 0, b: 0 }),
    {
        Rgb { r: 0, g: 0, b: 0 }
    }
}

impl Hsv {
    /// Build a color from hue, saturation and value.
    pub fn new(hue: u8, sat: u8, val: u8) -> (c: Hsv)
        ensures
            c == (Hsv { hue, sat, val }),
    {
        Hsv { hue, sat, val }
    }
}

/// Per-channel `blend8` of two colors.
pub open spec fn blend_colors_spec(a: Rgb, b: Rgb, amount_of_b: u8) -> Rgb {
    Rgb {
        r: blend8_spec(a.r, b.r, amount_of_b),
        g: blend8_spec(a.g, b.g, amount_of_b),
        b: blend8_spec(a.b, b.b, amount_of_b),
    }
}

/// Blend two colors channel by channel; 0 gives `a`, 255 gives `b`.
pub fn blend_colors(a: Rgb, b: Rgb, amount_of_b: u8) -> (c: Rgb)
    ensures
        c == blend_colors_spec(a, b, amount_of_b),
{
    Rgb {
        r: blend8(a.r, b.r, amount_of_b),
        g: blend8(a.g, b.g, amount_of_b),
        b: blend8(a.b, b.b, amount_of_b),
    }
}

/// The channels of a `0xRRGGBB` word.
pub open spec fn rgb_from_u32_spec(color: u32) -> Rgb {
    Rgb {
        r: ((color >> 16) & 0xFF) as u8,
        g: ((color >> 8) & 0xFF) as u8,
        b: (color & 0xFF) as u8,
    }
}

/// Split a `0xRRGGBB` word into a color.
pub fn rgb_from_u32(color: u32) -> (c: Rgb)
    ensures
        c == rgb_from_u32_spec(color),
{
    proof {
        assert((color >> 16) & 0xFF <= 255 && (color >> 8) & 0xFF <= 255 && color & 0xFF <= 255)
            by (bit_vector);
    }
    Rgb {
        r: ((color >> 16) & 0xFF) as u8,
        g: ((color >> 8) & 0xFF) as u8,
        b: (color & 0xFF) as u8,
    }
}

/// The largest of three channel values.
pub open spec fn max3(a: u8, b: u8, c: u8) -> u8 {
    let ab = if a >= b {
        a
    } else {
        b
    };
    if ab >= c {
        ab
    } else {
        c
    }
}

/// The smallest of three channel values.
pub open spec fn min3(a: u8, b: u8, c: u8) -> u8 {
    let ab = if a <= b {
        a
    } else {
        b
    };
    if ab <= c {
        ab
    } else {
        c
    }
}

/// RGB to HSV: value is the channel maximum, saturation the spread scaled by
/// the maximum, and hue one of three 0/85/171-anchored sectors. Divisions
/// truncate toward zero as the machine arithmetic does.
pub open spec fn rgb2hsv_spec(c: Rgb) -> Hsv {
    let max = max3(c.r, c.g, c.b);
    let min = min3(c.r, c.g, c.b);
    let delta = max - min;
    let sat = if max == 0 {
        0u8
    } else {
        ((delta * 255) / (max as int)) as u8
    };
    let hue = if delta == 0 {
        0u8
    } else if c.r == max {
        if c.g >= c.b {
            ((43 * (c.g - c.b)) / delta) as u8
        } else {
            let q = (43 * (c.b - c.g)) / delta;
            if q == 0 {
                0u8
            } else {
                (256 - q) as u8
            }
        }
    } else if c.g == max {
        if c.b >= c.r {
            (85 + (43 * (c.b - c.r)) / delta) as u8
        } else {
            (85 - (43 * (c.r - c.b)) / delta) as u8
        }
    } else {
        if c.r >= c.g {
            (171 + (43 * (c.r - c.g)) / delta) as u8
        } else {
            (171 - (43 * (c.g - c.r)) / delta) as u8
        }
    };
    Hsv { hue, sat, val: max }
}

/// Quotient of `43 * diff` by `delta`, bounded by 43 whenever `diff <= delta`.
proof fn lemma_hue_quotient_bound(diff: int, delta: int)
    requires
        0 <= diff <= delta,
        0 < delta,
    ensures
        0 <= (43 * diff) / delta <= 43,
{
    assert(0 <= (43 * diff) / delta <= 43) by (nonlinear_arith)
        requires
            0 <= diff <= delta,
            0 < delta,
    ;
}

/// Convert an RGB color to HSV.
pub fn rgb2hsv(rgb: Rgb) -> (h: Hsv)
    ensures
        h == rgb2hsv_spec(rgb),
{
    let r = rgb.r;
    let g = rgb.g;
    let b = rgb.b;

    let max = if r >= g {
        r
    } else {
        g
    };
    let max = if max >= b {
        max
    } else {
        b
    };
    let min = if r <= g {
        r
    } else {
        g
    };
    let min = if min <= b {
        min
    } else {
        b
    };
    let delta = max - min;

    let sat = if max == 0 {
        0
    } else {
        proof {
            assert((delta * 255) / (max as int) <= 255) by (nonlinear_arith)
                requires
                    0 <= delta <= max,
                    0 < max,
            ;
        }
        (((delta as u16) * 255) / (max as u16)) as u8
    };

    let hue = if delta == 0 {
        0
    } else if r == max {
        if g >= b {
            proof {
                lemma_hue_quotient_bound((g - b) as int, delta as int);
            }
            ((43u16 * ((g - b) as u16)) / (delta as u16)) as u8
        } else {
            proof {
                lemma_hue_quotient_bound((b - g) as int, delta as int);
            }
            let q = ((43u16 * ((b - g) as u16)) / (delta as u16)) as u8;
            if q == 0 {
                0
            } else {
                (256 - (q as u16)) as u8
            }
        }
    } else if g == max {
        if b >= r {
            proof {
                lemma_hue_quotient_bound((b - r) as int, delta as int);
            }
            85 + ((43u16 * ((b - r) as u16)) / (delta as u16)) as u8
        } else {
            proof {
                lemma_hue_quotient_bound((r - b) as int, delta as int);
            }
            85 - ((43u16 * ((r - b) as u16)) / (delta as u16)) as u8
        }
    } else {
        if r >= g {
            proof {
                lemma_hue_quotient_bound((r - g) as int, delta as int);
            }
            171 + ((43u16 * ((r - g) as u16)) / (delta as u16)) as u8
        } else {
            proof {
                lemma_hue_quotient_bound((g - r) as int, delta as int);
            }
            171 - ((43u16 * ((g - r) as u16)) / (delta as u16)) as u8
        }
    };

    Hsv { hue, sat, val: max }
}

/// HSV to RGB by the six-sector integer conversion: the sector index comes
/// from the hue, and `p`, `q`, `t` are the low, falling and rising channel
/// levels within the sector.
pub open spec fn hsv2rgb_spec(c: Hsv) -> Rgb {
    let v = c.val as int;
    let s = c.sat as int;
    let f = ((c.hue * 2) % 85) * 3;
    let p = v * (255 - s) / 255;
    let q = v * (255 - (s * f) / 255) / 255;
    let t = v * (255 - (s * (255 - f)) / 255) / 255;
    if c.hue <= 42 {
        Rgb { r: v as u8, g: t as u8, b: p as u8 }
    } else if c.hue <= 84 {
        Rgb { r: q as u8, g: v as u8, b: p as u8 }
    } else if c.hue <= 127 {
        Rgb { r: p as u8, g: v as u8, b: t as u8 }
    } else if c.hue <= 169 {
        Rgb { r: p as u8, g: q as u8, b: v as u8 }
    } else if c.hue <= 212 {
        Rgb { r: t as u8, g: p as u8, b: v as u8 }
    } else if c.hue <= 254 {
        Rgb { r: v as u8, g: p as u8, b: q as u8 }
    } else {
        Rgb { r: v as u8, g: t as u8, b: p as u8 }
    }
}

/// A channel level `v * (255 - x) / 255` stays within 0..=255 whenever
/// `x` does.
proof fn lemma_channel_level_bound(v: int, x: int)
    requires
        0 <= v <= 255,
        0 <= x <= 255,
    ensures
        0 <= v * (255 - x) / 255 <= 255,
        v * (255 - x) <= 255 * 255,
{
    assert(0 <= v * (255 - x) / 255 <= 255 && v * (255 - x) <= 255 * 255) by (nonlinear_arith)
        requires
            0 <= v <= 255,
            0 <= x <= 255,
    ;
}

/// Convert an HSV color to RGB.
pub fn hsv2rgb(hsv: Hsv) -> (c: Rgb)
    ensures
        c == hsv2rgb_spec(hsv),
{
    let v: u16 = hsv.val as u16;
    let s: u16 = hsv.sat as u16;
    let f: u16 = ((hsv.hue as u16) * 2 % 85) * 3;
    assert(f <= 252);

    proof {
        assert(s * f <= 255 * 252 && s * f / 255 <= 252) by (nonlinear_arith)
            requires
                s <= 255,
                f <= 252,
        ;
        assert(s * (255 - f) <= 255 * 255 && s * (255 - f) / 255 <= 255) by (nonlinear_arith)
            requires
                s <= 255,
                f <= 252,
        ;
        lemma_channel_level_bound(v as int, s as int);
        lemma_channel_level_bound(v as int, (s * f / 255) as int);
        lemma_channel_level_bound(v as int, (s * (255 - f) / 255) as int);
    }
    let p: u16 = v * (255 - s) / 255;
    let q: u16 = v * (255 - (s * f) / 255) / 255;
    let t: u16 = v * (255 - (s * (255 - f)) / 255) / 255;

    if hsv.hue <= 42 {
        Rgb { r: v as u8, g: t as u8, b: p as u8 }
    } else if hsv.hue <= 84 {
        Rgb { r: q as u8, g: v as u8, b: p as u8 }
    } else if hsv.hue <= 127 {
        Rgb { r: p as u8, g: v as u8, b: t as u8 }
    } else if hsv.hue <= 169 {
        Rgb { r: p as u8, g: q as u8, b: v as u8 }
    } else if hsv.hue <= 212 {
        Rgb { r: t as u8, g: p as u8, b: v as u8 }
    } else if hsv.hue <= 254 {
        Rgb { r: v as u8, g: p as u8, b: q as u8 }
    } else {
        Rgb { r: v as u8, g: t as u8, b: p as u8 }
    }
}

/// The index one past the middle of a strip: `ceil(len / 2)`.
pub open spec fn center_spec(len: int) -> int {
    (len + 1) / 2
}

/// Mirror the first half of the strip onto the second half, so that the
/// result reads the same from both ends: afterwards
/// `leds[len - 1 - i] == leds[i]` for every `i` below `ceil(len / 2)`,
/// and the first half is untouched.
pub fn mirror_half(leds: &mut Vec<Rgb>)
    ensures
        final(leds)@.len() == old(leds)@.len(),
        forall|i: int|
            0 <= i < center_spec(old(leds)@.len() as int) ==> final(leds)@[i] == old(leds)@[i],
        forall|i: int|
            0 <= i < center_spec(old(leds)@.len() as int) ==> final(leds)@[old(
                leds,
            )@.len() - 1 - i] == #[trigger] final(leds)@[i],
        final(leds)@ == mirrored_spec(old(leds)@),
{
    let len = leds.len();
    if len == 0 {
        return ;
    }
    let mut center: usize = len / 2;
    if len % 2 != 0 {
        center = center + 1;
    }
    assert(center == center_spec(len as int));
    let mut i: usize = 0;
    while i < center
        invariant
            center == center_spec(len as int),
            len == leds@.len(),
            1 <= center <= len,
            0 <= i <= center,
            forall|k: int| 0 <= k < center ==> leds@[k] == old(leds)@[k],
            forall|k: int| 0 <= k < i ==> leds@[len - 1 - k] == old(leds)@[k],
        decreases center - i,
    {
        let c = leds[i];
        leds.set(len - 1 - i, c);
        i = i + 1;
    }
    assert(leds@ =~= mirrored_spec(old(leds)@));
}

/// A strip mirrored around its center: the first half kept, the second half
/// reading the first backwards.
pub open spec fn mirrored_spec(s: Seq<Rgb>) -> Seq<Rgb> {
    Seq::new(
        s.len(),
        |i: int|
            if i < center_spec(s.len() as int) {
                s[i]
            } else {
                s[s.len() - 1 - i]
            },
    )
}

/// A strip read back to front.
pub open spec fn reversed_spec(s: Seq<Rgb>) -> Seq<Rgb> {
    Seq::new(s.len(), |i: int| s[s.len() - 1 - i])
}

/// Reverse the strip in place.
pub fn reverse_in_place(leds: &mut Vec<Rgb>)
    ensures
        final(leds)@ == reversed_spec(old(leds)@),
{
    let len = leds.len();
    let mut i: usize = 0;
    while i < len / 2
        invariant
            len == leds@.len(),
            i <= len / 2,
            forall|k: int| 0 <= k < i ==> #[trigger] leds@[k] == old(leds)@[len - 1 - k],
            forall|k: int| 0 <= k < i ==> #[trigger] leds@[len - 1 - k] == old(leds)@[k],
            forall|k: int| i <= k < len - i ==> #[trigger] leds@[k] == old(leds)@[k],
        decreases len / 2 - i,
    {
        let a = leds[i];
        let b = leds[len - 1 - i];
        leds.set(i, b);
        leds.set(len - 1 - i, a);
        proof {
            assert forall|k: int| 0 <= k < i + 1 implies #[trigger] leds@[k] == old(leds)@[len - 1
                - k] by {
                assert(0 <= len - 1 - k < len);
            }
            assert forall|k: int| 0 <= k < i + 1 implies #[trigger] leds@[len - 1 - k] == old(
                leds,
            )@[k] by {
                assert(0 <= len - 1 - k < len);
            }
        }
        i = i + 1;
    }
    assert forall|m: int| 0 <= m < len implies leds@[m] == old(leds)@[len - 1 - m] by {
        if len - 1 - m < len / 2 {
            let k = len - 1 - m;
            assert(leds@[k] == old(leds)@[len - 1 - k]);
        }
    }
    assert(leds@ =~= reversed_spec(old(leds)@));
}

/// Round trip through the integer conversions: converting a pure primary,
/// white or black to HSV and back returns the color unchanged.
pub proof fn lemma_rgb_hsv_round_trip()
    ensures
        hsv2rgb_spec(rgb2hsv_spec(Rgb { r: 255, g: 0, b: 0 })) == (Rgb { r: 255, g: 0, b: 0 }),
        hsv2rgb_spec(rgb2hsv_spec(Rgb { r: 0, g: 255, b: 0 })) == (Rgb { r: 0, g: 255, b: 0 }),
        hsv2rgb_spec(rgb2hsv_spec(Rgb { r: 255, g: 255, b: 255 })) == (Rgb {
            r: 255,
            g: 255,
            b: 255,
        }),
        hsv2rgb_spec(rgb2hsv_spec(Rgb { r: 0, g: 0, b: 0 })) == (Rgb { r: 0, g: 0, b: 0 }),
{
    assert(255int * (255 - 255) / 255 == 0 && 255int * (255 - 0) / 255 == 255 && (255int * 255)
        / 255 == 255 && (255int * 0) / 255 == 0) by (nonlinear_arith);
    assert(max3(255, 0, 0) == 255 && min3(255, 0, 0) == 0);
    assert(rgb2hsv_spec(Rgb { r: 255, g: 0, b: 0 }) == (Hsv { hue: 0, sat: 255, val: 255 }));
    assert(hsv2rgb_spec(Hsv { hue: 0, sat: 255, val: 255 }) == (Rgb { r: 255, g: 0, b: 0 }));
    assert(max3(0, 255, 0) == 255 && min3(0, 255, 0) == 0);
    assert(rgb2hsv_spec(Rgb { r: 0, g: 255, b: 0 }) == (Hsv { hue: 85, sat: 255, val: 255 }));
    assert(hsv2rgb_spec(Hsv { hue: 85, sat: 255, val: 255 }) == (Rgb { r: 0, g: 255, b: 0 }));
    assert(max3(255, 255, 255) == 255 && min3(255, 255, 255) == 255);
    assert(rgb2hsv_spec(Rgb { r: 255, g: 255, b: 255 }) == (Hsv { hue: 0, sat: 0, val: 255 }));
    assert(hsv2rgb_spec(Hsv { hue: 0, sat: 0, val: 255 }) == (Rgb { r: 255, g: 255, b: 255 }));
    assert(max3(0, 0, 0) == 0 && min3(0, 0, 0) == 0);
    assert(rgb2hsv_spec(Rgb { r: 0, g: 0, b: 0 }) == (Hsv { hue: 0, sat: 0, val: 0 }));
    assert(hsv2rgb_spec(Hsv { hue: 0, sat: 0, val: 0 }) == (Rgb { r: 0, g: 0, b: 0 }));
}

/// The exact round-trip results for the remaining pure primaries: blue,
/// yellow, cyan and magenta land one sector step away from their anchors,
/// so one channel comes back within 6 of its original value instead of
/// equal.
pub proof fn lemma_rgb_hsv_round_trip_near_primaries()
    ensures
        hsv2rgb_spec(rgb2hsv_spec(Rgb { r: 0, g: 0, b: 255 })) == (Rgb { r: 6, g: 0, b: 255 }),
        hsv2rgb_spec(rgb2hsv_spec(Rgb { r: 255, g: 255, b: 0 })) == (Rgb { r: 252, g: 255, b: 0 }),
        hsv2rgb_spec(rgb2hsv_spec(Rgb { r: 0, g: 255, b: 255 })) == (Rgb { r: 0, g: 252, b: 255 }),
        hsv2rgb_spec(rgb2hsv_spec(Rgb { r: 255, g: 0, b: 255 })) == (Rgb { r: 255, g: 0, b: 252 }),
{
    assert(255int * (255 - 255) / 255 == 0 && 255int * (255 - 0) / 255 == 255 && (255int * 255)
        / 255 == 255 && (255int * 0) / 255 == 0 && 255int * (255 - 249) / 255 == 6 && (255int
        * 249) / 255 == 249 && (255int * 3) / 255 == 3 && 255int * (255 - 3) / 255 == 252 && (
    43int * 255) / 255 == 43) by (nonlinear_arith);
    assert(max3(0, 0, 255) == 255 && min3(0, 0, 255) == 0);
    assert(rgb2hsv_spec(Rgb { r: 0, g: 0, b: 255 }) == (Hsv { hue: 171, sat: 255, val: 255 }));
    assert(hsv2rgb_spec(Hsv { hue: 171, sat: 255, val: 255 }) == (Rgb { r: 6, g: 0, b: 255 }));
    assert(max3(255, 255, 0) == 255 && min3(255, 255, 0) == 0);
    assert(rgb2hsv_spec(Rgb { r: 255, g: 255, b: 0 }) == (Hsv { hue: 43, sat: 255, val: 255 }));
    assert(hsv2rgb_spec(Hsv { hue: 43, sat: 255, val: 255 }) == (Rgb { r: 252, g: 255, b: 0 }));
    assert(max3(0, 255, 255) == 255 && min3(0, 255, 255) == 0);
    assert(rgb2hsv_spec(Rgb { r: 0, g: 255, b: 255 }) == (Hsv { hue: 128, sat: 255, val: 255 }));
    assert(hsv2rgb_spec(Hsv { hue: 128, sat: 255, val: 255 }) == (Rgb { r: 0, g: 252, b: 255 }));
    assert(max3(255, 0, 255) == 255 && min3(255, 0, 255) == 0);
    assert(rgb2hsv_spec(Rgb { r: 255, g: 0, b: 255 }) == (Hsv { hue: 213, sat: 255, val: 255 }));
    assert(hsv2rgb_spec(Hsv { hue: 213, sat: 255, val: 255 }) == (Rgb { r: 255, g: 0, b: 252 }));
}

} // verus!
