//! The effect bank: stable effect identifiers and the slot that holds the
//! active effect's state.
//!
//! Identifiers carry stable numeric codes and stable names for persistence
//! and external protocols; unknown codes or names parse to nothing.

use vstd::prelude::*;
use vstd::string::StringSliceAdditionalSpecFns;
use vstd::utf8::encode_utf8_decode_utf8;

use crate::aurora::{aurora_frame_spec, AuroraEffect};
use crate::color::Rgb;
use crate::flow::{flow_frame_spec, FlowEffect, FlowVariant};
use crate::rainbow::{rainbow_frame_spec, RainbowEffect, RainbowVariant};
use crate::static_color::StaticColorEffect;
use crate::transition::ValueTransition;
use crate::velvet_analog::{velvet_frame_spec, VelvetAnalogEffect};

verus! {

/// Identifier of an effect that can be requested.
#[derive(Clone, Copy, Debug, PartialEq, Eq, Structural)]
pub enum EffectId {
    /// Solid color with crossfade.
    Static,
    /// Rainbow mirrored around the strip center.
    RainbowMirrored,
    /// Rainbow traversing the long hue arc.
    RainbowLong,
    /// Rainbow traversing the short hue arc.
    RainbowShort,
    /// Long-arc rainbow, reversed in space.
    RainbowLongInverse,
    /// Short-arc rainbow, reversed in space.
    RainbowShortInverse,
    /// Breathing gradient around the anchor color.
    VelvetAnalog,
    /// Multi-layer value-noise aurora.
    Aurora,
    /// Multi-layer value-noise lava lamp.
    LavaLamp,
}

/// The stable numeric code of each effect.
pub open spec fn effect_id_code(id: EffectId) -> u8 {
    match id {
        EffectId::Static => 0,
        EffectId::RainbowMirrored => 1,
        EffectId::RainbowLong => 2,
        EffectId::RainbowShort => 3,
        EffectId::RainbowLongInverse => 4,
        EffectId::RainbowShortInverse => 5,
        EffectId::VelvetAnalog => 6,
        EffectId::Aurora => 7,
        EffectId::LavaLamp => 8,
    }
}

/// The effect a numeric code names, if any.
pub open spec fn effect_id_from_code(value: u8) -> Option<EffectId> {
    if value == 0 {
        Some(EffectId::Static)
    } else if value == 1 {
        Some(EffectId::RainbowMirrored)
    } else if value == 2 {
        Some(EffectId::RainbowLong)
    } else if value == 3 {
        Some(EffectId::RainbowShort)
    } else if value == 4 {
        Some(EffectId::RainbowLongInverse)
    } else if value == 5 {
        Some(EffectId::RainbowShortInverse)
    } else if value == 6 {
        Some(EffectId::VelvetAnalog)
    } else if value == 7 {
        Some(EffectId::Aurora)
    } else if value == 8 {
        Some(EffectId::LavaLamp)
    } else {
        None
    }
}

/// Compare two string slices for equality of their character sequences.
fn str_eq(a: &str, b: &str) -> (r: bool)
    ensures
        r == (a@ == b@),
{
    let ab = a.as_bytes();
    let bb = b.as_bytes();
    if ab.len() != bb.len() {
        proof {
            if a@ == b@ {
                assert(a.spec_bytes() == b.spec_bytes());
            }
        }
        return false;
    }
    let n = ab.len();
    let mut i: usize = 0;
    while i < n
        invariant
            n == ab@.len(),
            n == bb@.len(),
            ab@ == a.spec_bytes(),
            bb@ == b.spec_bytes(),
            i <= n,
            forall|k: int| 0 <= k < i ==> ab@[k] == bb@[k],
        decreases n - i,
    {
        if ab[i] != bb[i] {
            proof {
                if a@ == b@ {
                    assert(a.spec_bytes() == b.spec_bytes());
                }
            }
            return false;
        }
        i = i + 1;
    }
    proof {
        assert(a.spec_bytes() =~= b.spec_bytes());
        encode_utf8_decode_utf8(a@);
        encode_utf8_decode_utf8(b@);
    }
    true
}

impl EffectId {
    /// The stable name of this effect.
    pub open spec fn name_spec(self) -> Seq<char> {
        match self {
            EffectId::Static => "static"@,
            EffectId::RainbowMirrored => "rainbow_mirrored"@,
            EffectId::RainbowLong => "rainbow_long"@,
            EffectId::RainbowShort => "rainbow_short"@,
            EffectId::RainbowLongInverse => "rainbow_long_inverse"@,
            EffectId::RainbowShortInverse => "rainbow_short_inverse"@,
            EffectId::VelvetAnalog => "velvet_analog"@,
            EffectId::Aurora => "aurora"@,
            EffectId::LavaLamp => "lava_lamp"@,
        }
    }

    /// The effect a name refers to, if any.
    pub open spec fn parse_spec(name: Seq<char>) -> Option<EffectId> {
        if name == EffectId::Static.name_spec() {
            Some(EffectId::Static)
        } else if name == EffectId::RainbowMirrored.name_spec() {
            Some(EffectId::RainbowMirrored)
        } else if name == EffectId::RainbowLong.name_spec() {
            Some(EffectId::RainbowLong)
        } else if name == EffectId::RainbowShort.name_spec() {
            Some(EffectId::RainbowShort)
        } else if name == EffectId::RainbowLongInverse.name_spec() {
            Some(EffectId::RainbowLongInverse)
        } else if name == EffectId::RainbowShortInverse.name_spec() {
            Some(EffectId::RainbowShortInverse)
        } else if name == EffectId::VelvetAnalog.name_spec() {
            Some(EffectId::VelvetAnalog)
        } else if name == EffectId::Aurora.name_spec() {
            Some(EffectId::Aurora)
        } else if name == EffectId::LavaLamp.name_spec() {
            Some(EffectId::LavaLamp)
        } else {
            None
        }
    }

    /// Look an effect up by its stable numeric code.
    pub fn from_raw(value: u8) -> (r: Option<EffectId>)
        ensures
            r == effect_id_from_code(value),
    {
        match value {
            0 => Some(EffectId::Static),
            1 => Some(EffectId::RainbowMirrored),
            2 => Some(EffectId::RainbowLong),
            3 => Some(EffectId::RainbowShort),
            4 => Some(EffectId::RainbowLongInverse),
            5 => Some(EffectId::RainbowShortInverse),
            6 => Some(EffectId::VelvetAnalog),
            7 => Some(EffectId::Aurora),
            8 => Some(EffectId::LavaLamp),
            _ => None,
        }
    }

    /// The stable numeric code of this effect.
    pub fn to_raw(self) -> (r: u8)
        ensures
            r == effect_id_code(self),
    {
        match self {
            EffectId::Static => 0,
            EffectId::RainbowMirrored => 1,
            EffectId::RainbowLong => 2,
            EffectId::RainbowShort => 3,
            EffectId::RainbowLongInverse => 4,
            EffectId::RainbowShortInverse => 5,
            EffectId::VelvetAnalog => 6,
            EffectId::Aurora => 7,
            EffectId::LavaLamp => 8,
        }
    }

    /// The stable name of this effect.
    pub fn as_str(self) -> (s: &'static str)
        ensures
            s@ == self.name_spec(),
    {
        match self {
            EffectId::Static => "static",
            EffectId::RainbowMirrored => "rainbow_mirrored",
            EffectId::RainbowLong => "rainbow_long",
            EffectId::RainbowShort => "rainbow_short",
            EffectId::RainbowLongInverse => "rainbow_long_inverse",
            EffectId::RainbowShortInverse => "rainbow_short_inverse",
            EffectId::VelvetAnalog => "velvet_analog",
            EffectId::Aurora => "aurora",
            EffectId::LavaLamp => "lava_lamp",
        }
    }

    /// Look an effect up by its stable name.
    pub fn parse_from_str(s: &str) -> (r: Option<EffectId>)
        ensures
            r == EffectId::parse_spec(s@),
    {
        if str_eq(s, "static") {
            Some(EffectId::Static)
        } else if str_eq(s, "rainbow_mirrored") {
            Some(EffectId::RainbowMirrored)
        } else if str_eq(s, "rainbow_long") {
            Some(EffectId::RainbowLong)
        } else if str_eq(s, "rainbow_short") {
            Some(EffectId::RainbowShort)
        } else if str_eq(s, "rainbow_long_inverse") {
            Some(EffectId::RainbowLongInverse)
        } else if str_eq(s, "rainbow_short_inverse") {
            Some(EffectId::RainbowShortInverse)
        } else if str_eq(s, "velvet_analog") {
            Some(EffectId::VelvetAnalog)
        } else if str_eq(s, "aurora") {
            Some(EffectId::Aurora)
        } else if str_eq(s, "lava_lamp") {
            Some(EffectId::LavaLamp)
        } else {
            None
        }
    }
}

/// The slot holding the active effect's state; exactly one effect is active
/// at a time.
#[derive(Clone, Copy, Debug)]
pub enum EffectSlot {
    /// A rainbow sweep in any of its variants.
    Rainbow(RainbowEffect),
    /// A solid color with crossfade.
    Static(StaticColorEffect),
    /// The breathing anchor-color gradient.
    VelvetAnalog(VelvetAnalogEffect),
    /// The aurora noise field.
    Aurora(AuroraEffect),
    /// The flow noise field over a selectable palette.
    Flow(FlowEffect),
}

/// The effect a fresh slot holds for an id, built from the anchor color.
pub open spec fn to_slot_spec(id: EffectId, color: Rgb) -> EffectSlot {
    let resting = ValueTransition {
        current: color,
        source: color,
        target: None,
        duration: 0u64,
        start_time: 0u64,
    };
    match id {
        EffectId::Static => EffectSlot::Static(StaticColorEffect { color: resting }),
        EffectId::RainbowMirrored => EffectSlot::Rainbow(
            RainbowEffect {
                cycle_duration: 12000,
                value: 255,
                saturation: 255,
                variant: RainbowVariant::Mirrored,
                inverse: false,
            },
        ),
        EffectId::RainbowLong => EffectSlot::Rainbow(
            RainbowEffect {
                cycle_duration: 12000,
                value: 255,
                saturation: 255,
                variant: RainbowVariant::Long,
                inverse: false,
            },
        ),
        EffectId::RainbowShort => EffectSlot::Rainbow(
            RainbowEffect {
                cycle_duration: 12000,
                value: 255,
                saturation: 255,
                variant: RainbowVariant::Short,
                inverse: false,
            },
        ),
        EffectId::RainbowLongInverse => EffectSlot::Rainbow(
            RainbowEffect {
                cycle_duration: 12000,
                value: 255,
                saturation: 255,
                variant: RainbowVariant::Long,
                inverse: true,
            },
        ),
        EffectId::RainbowShortInverse => EffectSlot::Rainbow(
            RainbowEffect {
                cycle_duration: 12000,
                value: 255,
                saturation: 255,
                variant: RainbowVariant::Short,
                inverse: true,
            },
        ),
        EffectId::VelvetAnalog => EffectSlot::VelvetAnalog(
            VelvetAnalogEffect { color: resting, breathe_period: 14000, drift_period: 27000 },
        ),
        EffectId::Aurora => EffectSlot::Aurora(
            AuroraEffect { layer1_period: 8000, layer2_period: 5000, layer3_period: 13000 },
        ),
        EffectId::LavaLamp => EffectSlot::Flow(
            FlowEffect {
                layer1_period: 8000,
                layer2_period: 5000,
                layer3_period: 13000,
                variant: FlowVariant::LavaLamp,
            },
        ),
    }
}

/// The frame a slot paints at `now` over a strip that held `orig`.
pub open spec fn slot_frame_spec(slot: EffectSlot, now: u64, orig: Seq<Rgb>) -> Seq<Rgb> {
    match slot {
        EffectSlot::Rainbow(e) => rainbow_frame_spec(e, now, orig),
        EffectSlot::Static(e) => Seq::new(orig.len(), |i: int| e.color.tick_spec(now).current),
        EffectSlot::VelvetAnalog(e) => velvet_frame_spec(e, now, orig),
        EffectSlot::Aurora(e) => aurora_frame_spec(e, now, orig),
        EffectSlot::Flow(e) => flow_frame_spec(e, now, orig),
    }
}

/// The slot's state after rendering at `now`: the stateful effects advance
/// their color transition, the procedural ones carry no state.
pub open spec fn slot_step_spec(slot: EffectSlot, now: u64) -> EffectSlot {
    match slot {
        EffectSlot::Static(e) => EffectSlot::Static(
            StaticColorEffect { color: e.color.tick_spec(now) },
        ),
        EffectSlot::VelvetAnalog(e) => EffectSlot::VelvetAnalog(
            VelvetAnalogEffect { color: e.color.tick_spec(now), ..e },
        ),
        other => other,
    }
}

/// The slot's state after a color retarget: only the effects that carry an
/// anchor color react.
pub open spec fn slot_set_color_spec(
    slot: EffectSlot,
    color: Rgb,
    duration: u64,
    now: u64,
) -> EffectSlot {
    match slot {
        EffectSlot::Static(e) => EffectSlot::Static(
            StaticColorEffect { color: e.color.set_spec(color, duration, now) },
        ),
        EffectSlot::VelvetAnalog(e) => EffectSlot::VelvetAnalog(
            VelvetAnalogEffect { color: e.color.set_spec(color, duration, now), ..e },
        ),
        other => other,
    }
}

/// Whether the slot's effect is mid color transition.
pub open spec fn slot_is_transitioning_spec(slot: EffectSlot) -> bool {
    match slot {
        EffectSlot::Static(e) => e.color.target is Some,
        EffectSlot::VelvetAnalog(e) => e.color.target is Some,
        _ => false,
    }
}

/// Whether the slot's effect asks for color correction.
pub open spec fn slot_precise_colors_spec(slot: EffectSlot) -> bool {
    match slot {
        EffectSlot::Static(_) => true,
        EffectSlot::VelvetAnalog(_) => true,
        _ => false,
    }
}

/// The id naming the slot's effect.
pub open spec fn slot_id_spec(slot: EffectSlot) -> EffectId {
    match slot {
        EffectSlot::Rainbow(e) => match e.variant {
            RainbowVariant::Mirrored => EffectId::RainbowMirrored,
            RainbowVariant::Long => if e.inverse {
                EffectId::RainbowLongInverse
            } else {
                EffectId::RainbowLong
            },
            RainbowVariant::Short => if e.inverse {
                EffectId::RainbowShortInverse
            } else {
                EffectId::RainbowShort
            },
        },
        EffectSlot::Static(_) => EffectId::Static,
        EffectSlot::VelvetAnalog(_) => EffectId::VelvetAnalog,
        EffectSlot::Aurora(_) => EffectId::Aurora,
        EffectSlot::Flow(e) => match e.variant {
            FlowVariant::Aurora => EffectId::Aurora,
            FlowVariant::LavaLamp => EffectId::LavaLamp,
        },
    }
}

impl EffectSlot {
    /// Render the active effect into the strip.
    pub fn render(&mut self, now: u64, leds: &mut Vec<Rgb>)
        ensures
            *final(self) == slot_step_spec(*old(self), now),
            final(leds)@ == slot_frame_spec(*old(self), now, old(leds)@),
    {
        match self {
            EffectSlot::Rainbow(e) => e.render(now, leds),
            EffectSlot::Static(e) => e.render(now, leds),
            EffectSlot::VelvetAnalog(e) => e.render(now, leds),
            EffectSlot::Aurora(e) => e.render(now, leds),
            EffectSlot::Flow(e) => e.render(now, leds),
        }
    }

    /// Reset the effect's state; none of the effects carries resettable
    /// state beyond their transitions, so the slot is unchanged.
    pub fn reset(&mut self)
        ensures
            *final(self) == *old(self),
    {
    }

    /// The id naming the active effect.
    pub fn id(&self) -> (id: EffectId)
        ensures
            id == slot_id_spec(*self),
    {
        match self {
            EffectSlot::Rainbow(e) => match e.variant {
                RainbowVariant::Mirrored => EffectId::RainbowMirrored,
                RainbowVariant::Long => if e.inverse {
                    EffectId::RainbowLongInverse
                } else {
                    EffectId::RainbowLong
                },
                RainbowVariant::Short => if e.inverse {
                    EffectId::RainbowShortInverse
                } else {
                    EffectId::RainbowShort
                },
            },
            EffectSlot::Static(_) => EffectId::Static,
            EffectSlot::VelvetAnalog(_) => EffectId::VelvetAnalog,
            EffectSlot::Aurora(_) => EffectId::Aurora,
            EffectSlot::Flow(e) => match e.variant {
                FlowVariant::Aurora => EffectId::Aurora,
                FlowVariant::LavaLamp => EffectId::LavaLamp,
            },
        }
    }

    /// Retarget the active effect's color, if it carries one.
    pub fn set_color(&mut self, color: Rgb, duration: u64, now: u64)
        ensures
            *final(self) == slot_set_color_spec(*old(self), color, duration, now),
    {
        match self {
            EffectSlot::Static(e) => e.set_color(color, duration, now),
            EffectSlot::VelvetAnalog(e) => e.set_color(color, duration, now),
            _ => {},
        }
    }

    /// Whether the active effect is mid color transition.
    pub fn is_transitioning(&self) -> (b: bool)
        ensures
            b == slot_is_transitioning_spec(*self),
    {
        match self {
            EffectSlot::Static(e) => e.is_transitioning(),
            EffectSlot::VelvetAnalog(e) => e.is_transitioning(),
            _ => false,
        }
    }

    /// Whether the active effect asks for color correction.
    pub fn requires_precise_colors(&self) -> (b: bool)
        ensures
            b == slot_precise_colors_spec(*self),
    {
        match self {
            EffectSlot::Static(_) => true,
            EffectSlot::VelvetAnalog(_) => true,
            _ => false,
        }
    }
}

impl EffectId {
    /// Build a fresh slot for this effect from the anchor color.
    pub fn to_slot(self, color: Rgb) -> (slot: EffectSlot)
        ensures
            slot == to_slot_spec(self, color),
    {
        match self {
            EffectId::Static => EffectSlot::Static(StaticColorEffect::new(color)),
            EffectId::RainbowMirrored => EffectSlot::Rainbow(
                RainbowEffect::new(RainbowVariant::Mirrored),
            ),
            EffectId::RainbowLong => EffectSlot::Rainbow(RainbowEffect::new(RainbowVariant::Long)),
            EffectId::RainbowShort => EffectSlot::Rainbow(
                RainbowEffect::new(RainbowVariant::Short),
            ),
            EffectId::RainbowLongInverse => EffectSlot::Rainbow(
                RainbowEffect::new(RainbowVariant::Long).with_inverse(),
            ),
            EffectId::RainbowShortInverse => EffectSlot::Rainbow(
                RainbowEffect::new(RainbowVariant::Short).with_inverse(),
            ),
            EffectId::VelvetAnalog => EffectSlot::VelvetAnalog(VelvetAnalogEffect::new(color)),
            EffectId::Aurora => EffectSlot::Aurora(AuroraEffect::new()),
            EffectId::LavaLamp => EffectSlot::Flow(FlowEffect::new(FlowVariant::LavaLamp)),
        }
    }
}

} // verus!
