//! Flow effect: the same three-layer value-noise motion as the aurora, over
//! selectable palettes.

use vstd::prelude::*;

use crate::aurora::{clamp_u32_spec, noise_brightness_spec};
use crate::color::{blend_colors, blend_colors_spec, Rgb};
use crate::math8::{scale8, scale8_spec};
use crate::noise::{combined_noise, combined_noise_spec};

verus! {

/// Which palette the flow effect paints with.
#[derive(Clone, Copy, Debug, PartialEq, Eq, Structural)]
pub enum FlowVariant {
    /// Cool blue, teal and violet tones.
    Aurora,
    /// Warm red, orange and purple tones.
    LavaLamp,
}

/// The flow rendition of the aurora palette, from `0xRRGGBB` design values.
pub open spec fn flow_aurora_palette_spec(i: int) -> Rgb {
    if i == 0 {
        Rgb { r: 0x00, g: 0x2E, b: 0xB8 }
    } else if i == 1 {
        Rgb { r: 0x00, g: 0xFF, b: 0xD4 }
    } else if i == 2 {
        Rgb { r: 0x14, g: 0xFF, b: 0x78 }
    } else if i == 3 {
        Rgb { r: 0x00, g: 0xC8, b: 0xFF }
    } else if i == 4 {
        Rgb { r: 0x88, g: 0x00, b: 0xFF }
    } else {
        Rgb { r: 0xFF, g: 0x00, b: 0x90 }
    }
}

/// The lava-lamp palette: dark magenta through red, orange and a purple
/// accent.
pub open spec fn lava_palette_spec(i: int) -> Rgb {
    if i == 0 {
        Rgb { r: 0x3C, g: 0x00, b: 0x14 }
    } else if i == 1 {
        Rgb { r: 0xD1, g: 0x00, b: 0x38 }
    } else if i == 2 {
        Rgb { r: 0xFF, g: 0x50, b: 0x00 }
    } else if i == 3 {
        Rgb { r: 0xFF, g: 0x97, b: 0x2E }
    } else {
        Rgb { r: 0xF2, g: 0x03, b: 0x9F }
    }
}

/// One entry of the flow aurora palette.
fn flow_aurora_palette(i: usize) -> (c: Rgb)
    requires
        i <= 5,
    ensures
        c == flow_aurora_palette_spec(i as int),
{
    if i == 0 {
        Rgb { r: 0x00, g: 0x2E, b: 0xB8 }
    } else if i == 1 {
        Rgb { r: 0x00, g: 0xFF, b: 0xD4 }
    } else if i == 2 {
        Rgb { r: 0x14, g: 0xFF, b: 0x78 }
    } else if i == 3 {
        Rgb { r: 0x00, g: 0xC8, b: 0xFF }
    } else if i == 4 {
        Rgb { r: 0x88, g: 0x00, b: 0xFF }
    } else {
        Rgb { r: 0xFF, g: 0x00, b: 0x90 }
    }
}

/// One entry of the lava-lamp palette.
fn lava_palette(i: usize) -> (c: Rgb)
    requires
        i <= 4,
    ensures
        c == lava_palette_spec(i as int),
{
    if i == 0 {
        Rgb { r: 0x3C, g: 0x00, b: 0x14 }
    } else if i == 1 {
        Rgb { r: 0xD1, g: 0x00, b: 0x38 }
    } else if i == 2 {
        Rgb { r: 0xFF, g: 0x50, b: 0x00 }
    } else if i == 3 {
        Rgb { r: 0xFF, g: 0x97, b: 0x2E }
    } else {
        Rgb { r: 0xF2, g: 0x03, b: 0x9F }
    }
}

/// The selected palette sampled at `t`: `t` spans the palette's segments,
/// blending between neighboring entries.
pub open spec fn flow_sample_spec(variant: FlowVariant, t: u8) -> Rgb {
    match variant {
        FlowVariant::Aurora => {
            let scaled = t * 5;
            let segment = if scaled / 256 > 4 {
                4
            } else {
                scaled / 256
            };
            blend_colors_spec(
                flow_aurora_palette_spec(segment),
                flow_aurora_palette_spec(segment + 1),
                (scaled % 256) as u8,
            )
        },
        FlowVariant::LavaLamp => {
            let scaled = t * 4;
            let segment = if scaled / 256 > 3 {
                3
            } else {
                scaled / 256
            };
            blend_colors_spec(
                lava_palette_spec(segment),
                lava_palette_spec(segment + 1),
                (scaled % 256) as u8,
            )
        },
    }
}

/// Sample the selected palette at a position 0..=255.
fn flow_sample(variant: FlowVariant, t: u8) -> (c: Rgb)
    ensures
        c == flow_sample_spec(variant, t),
{
    match variant {
        FlowVariant::Aurora => {
            let scaled: u16 = (t as u16) * 5;
            let segment: u16 = if scaled / 256 > 4 {
                4
            } else {
                scaled / 256
            };
            blend_colors(
                flow_aurora_palette(segment as usize),
                flow_aurora_palette((segment + 1) as usize),
                (scaled % 256) as u8,
            )
        },
        FlowVariant::LavaLamp => {
            let scaled: u16 = (t as u16) * 4;
            let segment: u16 = if scaled / 256 > 3 {
                3
            } else {
                scaled / 256
            };
            blend_colors(
                lava_palette(segment as usize),
                lava_palette((segment + 1) as usize),
                (scaled % 256) as u8,
            )
        },
    }
}

/// Flow effect with three noise layers over a selectable palette.
#[derive(Clone, Copy, Debug, PartialEq, Eq, Structural)]
pub struct FlowEffect {
    /// Period of the slow base layer in milliseconds.
    pub layer1_period: u64,
    /// Period of the faster detail layer in milliseconds.
    pub layer2_period: u64,
    /// Period of the very slow shimmer layer in milliseconds.
    pub layer3_period: u64,
    /// The palette this flow paints with.
    pub variant: FlowVariant,
}

/// The color of pixel `i` of a flow frame.
pub open spec fn flow_pixel_spec(e: FlowEffect, now: u64, i: int, len: int) -> Rgb {
    let noise = combined_noise_spec(i, len, now, e.layer1_period, e.layer2_period, e.layer3_period);
    let base = flow_sample_spec(e.variant, noise);
    let m = noise_brightness_spec(noise);
    Rgb { r: scale8_spec(base.r, m), g: scale8_spec(base.g, m), b: scale8_spec(base.b, m) }
}

/// The frame the flow effect paints at `now`.
pub open spec fn flow_frame_spec(e: FlowEffect, now: u64, orig: Seq<Rgb>) -> Seq<Rgb> {
    if orig.len() == 0 {
        orig
    } else {
        let len32 = clamp_u32_spec(orig.len() as int);
        Seq::new(orig.len(), |i: int| flow_pixel_spec(e, now, clamp_u32_spec(i), len32))
    }
}

impl FlowEffect {
    /// Create the flow with its default 8, 5 and 13 second layer periods.
    pub fn new(variant: FlowVariant) -> (e: FlowEffect)
        ensures
            e == (FlowEffect {
                layer1_period: 8000,
                layer2_period: 5000,
                layer3_period: 13000,
                variant,
            }),
    {
        FlowEffect { layer1_period: 8000, layer2_period: 5000, layer3_period: 13000, variant }
    }

    /// Paint the flow frame for the time `now`.
    pub fn render(&self, now: u64, leds: &mut Vec<Rgb>)
        ensures
            final(leds)@ == flow_frame_spec(*self, now, old(leds)@),
    {
        if leds.len() == 0 {
            return ;
        }
        let n = leds.len();
        let len32: u32 = if n > 0xFFFFFFFF {
            0xFFFFFFFF
        } else {
            n as u32
        };
        let mut i: usize = 0;
        while i < n
            invariant
                i <= n,
                n == leds@.len(),
                len32 as int == clamp_u32_spec(n as int),
                forall|k: int|
                    0 <= k < i ==> leds@[k] == flow_pixel_spec(
                        *self,
                        now,
                        clamp_u32_spec(k),
                        len32 as int,
                    ),
            decreases n - i,
        {
            let i32v: u32 = if i > 0xFFFFFFFF {
                0xFFFFFFFF
            } else {
                i as u32
            };
            let noise = combined_noise(
                i32v,
                len32,
                now,
                self.layer1_period,
                self.layer2_period,
                self.layer3_period,
            );
            let base = flow_sample(self.variant, noise);
            let sm = scale8(noise, 64);
            let m: u8 = if (sm as u16) + 191 > 255 {
                255
            } else {
                sm + 191
            };
            leds.set(i, Rgb { r: scale8(base.r, m), g: scale8(base.g, m), b: scale8(base.b, m) });
            i = i + 1;
        }
        assert(leds@ =~= flow_frame_spec(*self, now, old(leds)@));
    }
}

} // verus!
