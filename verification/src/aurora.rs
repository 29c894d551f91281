//! Aurora effect: smooth flowing multi-layer value noise over a fixed
//! blue/teal/green/violet palette.

use vstd::prelude::*;

use crate::color::{blend_colors, blend_colors_spec, Rgb};
use crate::math8::{scale8, scale8_spec};
use crate::noise::{combined_noise, combined_noise_spec};

verus! {

/// The aurora palette: deep blue, teal, muted green, cyan, violet, pink.
pub open spec fn aurora_palette_spec(i: int) -> Rgb {
    if i == 0 {
        Rgb { r: 0, g: 20, b: 80 }
    } else if i == 1 {
        Rgb { r: 0, g: 95, b: 120 }
    } else if i == 2 {
        Rgb { r: 20, g: 170, b: 95 }
    } else if i == 3 {
        Rgb { r: 0, g: 160, b: 200 }
    } else if i == 4 {
        Rgb { r: 110, g: 30, b: 170 }
    } else {
        Rgb { r: 200, g: 50, b: 170 }
    }
}

/// One entry of the aurora palette.
fn aurora_palette(i: usize) -> (c: Rgb)
    requires
        i <= 5,
    ensures
        c == aurora_palette_spec(i as int),
{
    if i == 0 {
        Rgb { r: 0, g: 20, b: 80 }
    } else if i == 1 {
        Rgb { r: 0, g: 95, b: 120 }
    } else if i == 2 {
        Rgb { r: 20, g: 170, b: 95 }
    } else if i == 3 {
        Rgb { r: 0, g: 160, b: 200 }
    } else if i == 4 {
        Rgb { r: 110, g: 30, b: 170 }
    } else {
        Rgb { r: 200, g: 50, b: 170 }
    }
}

/// The aurora palette sampled at `t`: `t` spans the five palette segments,
/// blending between neighboring entries.
pub open spec fn aurora_sample_spec(t: u8) -> Rgb {
    let scaled = t * 5;
    let segment = if scaled / 256 > 4 {
        4
    } else {
        scaled / 256
    };
    let local = (scaled % 256) as u8;
    blend_colors_spec(
        aurora_palette_spec(segment),
        aurora_palette_spec(segment + 1),
        local,
    )
}

/// Sample the aurora palette at a position 0..=255.
fn aurora_sample(t: u8) -> (c: Rgb)
    ensures
        c == aurora_sample_spec(t),
{
    let scaled: u16 = (t as u16) * 5;
    let segment: u16 = if scaled / 256 > 4 {
        4
    } else {
        scaled / 256
    };
    let local: u8 = (scaled % 256) as u8;
    blend_colors(
        aurora_palette(segment as usize),
        aurora_palette((segment + 1) as usize),
        local,
    )
}

/// A pixel's brightness modulation from its noise value: 75% to 100%.
pub open spec fn noise_brightness_spec(noise: u8) -> u8 {
    let v = scale8_spec(noise, 64) + 191;
    if v > 255 {
        255u8
    } else {
        v as u8
    }
}

/// Aurora effect with three flowing noise layers.
#[derive(Clone, Copy, Debug, PartialEq, Eq, Structural)]
pub struct AuroraEffect {
    /// Period of the slow base layer in milliseconds.
    pub layer1_period: u64,
    /// Period of the faster detail layer in milliseconds.
    pub layer2_period: u64,
    /// Period of the very slow shimmer layer in milliseconds.
    pub layer3_period: u64,
}

/// The color of pixel `i` of an aurora frame: the palette sampled at the
/// pixel's combined noise value, dimmed by the noise-driven brightness.
pub open spec fn aurora_pixel_spec(e: AuroraEffect, now: u64, i: int, len: int) -> Rgb {
    let noise = combined_noise_spec(i, len, now, e.layer1_period, e.layer2_period, e.layer3_period);
    let base = aurora_sample_spec(noise);
    let m = noise_brightness_spec(noise);
    Rgb { r: scale8_spec(base.r, m), g: scale8_spec(base.g, m), b: scale8_spec(base.b, m) }
}

/// The frame the aurora paints at `now`; pixel indices and the length
/// saturate at the 32-bit limit inside the noise field.
pub open spec fn aurora_frame_spec(e: AuroraEffect, now: u64, orig: Seq<Rgb>) -> Seq<Rgb> {
    if orig.len() == 0 {
        orig
    } else {
        let len32 = clamp_u32_spec(orig.len() as int);
        Seq::new(orig.len(), |i: int| aurora_pixel_spec(e, now, clamp_u32_spec(i), len32))
    }
}

/// A count clamped into the 32-bit range.
pub open spec fn clamp_u32_spec(v: int) -> int {
    if v > 0xFFFFFFFF {
        0xFFFFFFFF
    } else {
        v
    }
}

impl AuroraEffect {
    /// Create the aurora with its default 8, 5 and 13 second layer periods.
    pub fn new() -> (e: AuroraEffect)
        ensures
            e == (AuroraEffect { layer1_period: 8000, layer2_period: 5000, layer3_period: 13000 }),
    {
        AuroraEffect { layer1_period: 8000, layer2_period: 5000, layer3_period: 13000 }
    }

    /// Paint the aurora frame for the time `now`.
    pub fn render(&self, now: u64, leds: &mut Vec<Rgb>)
        ensures
            final(leds)@ == aurora_frame_spec(*self, now, old(leds)@),
    {
        if leds.len() == 0 {
            return ;
        }
        let n = leds.len();
        let len32: u32 = if n > 0xFFFFFFFF {
            0xFFFFFFFF
        } else {
            n as u32
        };
        let mut i: usize = 0;
        while i < n
            invariant
                i <= n,
                n == leds@.len(),
                len32 as int == clamp_u32_spec(n as int),
                forall|k: int|
                    0 <= k < i ==> leds@[k] == aurora_pixel_spec(
                        *self,
                        now,
                        clamp_u32_spec(k),
                        len32 as int,
                    ),
            decreases n - i,
        {
            let i32v: u32 = if i > 0xFFFFFFFF {
                0xFFFFFFFF
            } else {
                i as u32
            };
            let noise = combined_noise(
                i32v,
                len32,
                now,
                self.layer1_period,
                self.layer2_period,
                self.layer3_period,
            );
            let base = aurora_sample(noise);
            let sm = scale8(noise, 64);
            let m: u8 = if (sm as u16) + 191 > 255 {
                255
            } else {
                sm + 191
            };
            leds.set(i, Rgb { r: scale8(base.r, m), g: scale8(base.g, m), b: scale8(base.b, m) });
            i = i + 1;
        }
        assert(leds@ =~= aurora_frame_spec(*self, now, old(leds)@));
    }
}

} // verus!
