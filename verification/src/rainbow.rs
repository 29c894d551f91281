//! Rainbow effects: a three-point hue sweep cycling around the wheel.

use vstd::prelude::*;

use crate::color::{center_spec, mirror_half, mirrored_spec, reverse_in_place, reversed_spec, Hsv,
    Rgb};
use crate::gradient::{fill_gradient_three_fp, fill_gradient_three_spec};

verus! {

/// How the hue sweep is laid out across the strip.
#[derive(Clone, Copy, Debug, PartialEq, Eq, Structural)]
pub enum RainbowVariant {
    /// Rotated order traversing the longer hue arc.
    Long,
    /// Plain forward sweep over the shorter hue arc.
    Short,
    /// Forward sweep over the first half, mirrored around the center.
    Mirrored,
}

/// Position of `now` within a cycle, mapped onto the hue wheel; a zero cycle
/// counts as one millisecond.
pub open spec fn cycle_hue_spec(cycle_ms: u64, now: u64) -> u8 {
    let c = if cycle_ms == 0 {
        1
    } else {
        cycle_ms as int
    };
    ((((now as int) % c) * 255) / c) as u8
}

/// A hue moved `step` positions up the 256-step wheel.
pub open spec fn wheel_add(hue: u8, step: u8) -> u8 {
    ((hue + step) % 256) as u8
}

/// The rainbow effect: three HSV anchors spaced 60 hue steps apart sweep the
/// strip; the base hue advances once around the wheel per cycle.
#[derive(Clone, Copy, Debug)]
pub struct RainbowEffect {
    /// Length of one complete hue cycle in milliseconds.
    pub cycle_duration: u64,
    /// Brightness value of the anchors.
    pub value: u8,
    /// Saturation of the anchors.
    pub saturation: u8,
    /// Spatial layout of the sweep.
    pub variant: RainbowVariant,
    /// Whether the finished strip is reversed in place.
    pub inverse: bool,
}

/// The frame a rainbow effect paints at `now` over a strip that held `orig`.
pub open spec fn rainbow_frame_spec(e: RainbowEffect, now: u64, orig: Seq<Rgb>) -> Seq<Rgb> {
    if orig.len() == 0 {
        orig
    } else {
        let base = cycle_hue_spec(e.cycle_duration, now);
        let c1 = Hsv { hue: base, sat: e.saturation, val: e.value };
        let c2 = Hsv { hue: wheel_add(base, 60), sat: e.saturation, val: e.value };
        let c3 = Hsv { hue: wheel_add(base, 120), sat: e.saturation, val: e.value };
        let filled = match e.variant {
            RainbowVariant::Short => fill_gradient_three_spec(orig, c1, c2, c3),
            RainbowVariant::Long => fill_gradient_three_spec(orig, c3, c1, c2),
            RainbowVariant::Mirrored => {
                let center = center_spec(orig.len() as int);
                let first = fill_gradient_three_spec(orig.subrange(0, center), c1, c2, c3);
                mirrored_spec(first + orig.subrange(center, orig.len() as int))
            },
        };
        if e.inverse {
            reversed_spec(filled)
        } else {
            filled
        }
    }
}

impl RainbowEffect {
    /// Create a rainbow with the default 12-second cycle at full saturation
    /// and value.
    pub fn new(variant: RainbowVariant) -> (e: RainbowEffect)
        ensures
            e == (RainbowEffect {
                cycle_duration: 12000,
                value: 255,
                saturation: 255,
                variant,
                inverse: false,
            }),
    {
        RainbowEffect { cycle_duration: 12000, value: 255, saturation: 255, variant, inverse: false }
    }

    /// The same rainbow, reversed in space.
    pub fn with_inverse(self) -> (e: RainbowEffect)
        ensures
            e == (RainbowEffect { inverse: true, ..self }),
    {
        RainbowEffect { inverse: true, ..self }
    }

    /// The same rainbow with another cycle length.
    pub fn with_cycle_duration(self, cycle_ms: u64) -> (e: RainbowEffect)
        ensures
            e == (RainbowEffect { cycle_duration: cycle_ms, ..self }),
    {
        RainbowEffect { cycle_duration: cycle_ms, ..self }
    }

    /// The same rainbow with another brightness value.
    pub fn with_value(self, value: u8) -> (e: RainbowEffect)
        ensures
            e == (RainbowEffect { value, ..self }),
    {
        RainbowEffect { value, ..self }
    }

    /// The same rainbow with another saturation.
    pub fn with_saturation(self, saturation: u8) -> (e: RainbowEffect)
        ensures
            e == (RainbowEffect { saturation, ..self }),
    {
        RainbowEffect { saturation, ..self }
    }

    /// Paint the rainbow frame for the time `now`.
    pub fn render(&self, now: u64, leds: &mut Vec<Rgb>)
        ensures
            final(leds)@ == rainbow_frame_spec(*self, now, old(leds)@),
    {
        if leds.len() == 0 {
            return ;
        }

        let cycle_ms = if self.cycle_duration == 0 {
            1
        } else {
            self.cycle_duration
        };
        let progress_ms = now % cycle_ms;
        proof {
            assert(progress_ms * 255 < cycle_ms * 256) by (nonlinear_arith)
                requires
                    progress_ms < cycle_ms,
            ;
            vstd::arithmetic::div_mod::lemma_multiply_divide_lt(
                progress_ms * 255,
                cycle_ms as int,
                256,
            );
        }
        let base_hue = (((progress_ms as u128) * 255) / (cycle_ms as u128)) as u8;
        assert(base_hue == cycle_hue_spec(self.cycle_duration, now));

        let c1 = Hsv { hue: base_hue, sat: self.saturation, val: self.value };
        let c2 = Hsv {
            hue: (((base_hue as u16) + 60) % 256) as u8,
            sat: self.saturation,
            val: self.value,
        };
        let c3 = Hsv {
            hue: (((base_hue as u16) + 120) % 256) as u8,
            sat: self.saturation,
            val: self.value,
        };

        match self.variant {
            RainbowVariant::Short => {
                fill_gradient_three_fp(leds, c1, c2, c3);
            },
            RainbowVariant::Long => {
                fill_gradient_three_fp(leds, c3, c1, c2);
            },
            RainbowVariant::Mirrored => {
                let len = leds.len();
                let mut center: usize = len / 2;
                if len % 2 != 0 {
                    center = center + 1;
                }
                assert(center == center_spec(len as int));
                let mut first_half: Vec<Rgb> = Vec::new();
                let mut i: usize = 0;
                while i < center
                    invariant
                        i <= center <= len,
                        len == leds@.len(),
                        first_half@ =~= leds@.subrange(0, i as int),
                    decreases center - i,
                {
                    first_half.push(leds[i]);
                    i = i + 1;
                }
                fill_gradient_three_fp(&mut first_half, c1, c2, c3);
                let mut j: usize = 0;
                while j < center
                    invariant
                        j <= center <= len,
                        len == leds@.len(),
                        first_half@.len() == center,
                        forall|k: int| 0 <= k < j ==> leds@[k] == first_half@[k],
                        forall|k: int| j <= k < len ==> leds@[k] == old(leds)@[k],
                        first_half@ == fill_gradient_three_spec(
                            old(leds)@.subrange(0, center as int),
                            c1,
                            c2,
                            c3,
                        ),
                    decreases center - j,
                {
                    let c = first_half[j];
                    leds.set(j, c);
                    j = j + 1;
                }
                assert(leds@ =~= fill_gradient_three_spec(
                    old(leds)@.subrange(0, center as int),
                    c1,
                    c2,
                    c3,
                ) + old(leds)@.subrange(center as int, len as int));
                mirror_half(leds);
            },
        }

        if self.inverse {
            reverse_in_place(leds);
        }
    }
}

/// The rainbow repeats after one full cycle: frames one cycle apart are
/// identical.
pub proof fn lemma_rainbow_periodic(e: RainbowEffect, now: u64, orig: Seq<Rgb>)
    requires
        e.cycle_duration > 0,
        now + e.cycle_duration <= u64::MAX,
    ensures
        rainbow_frame_spec(e, now, orig) == rainbow_frame_spec(
            e,
            (now + e.cycle_duration) as u64,
            orig,
        ),
{
    vstd::arithmetic::div_mod::lemma_mod_add_multiples_vanish(
        now as int,
        e.cycle_duration as int,
    );
}

} // verus!
