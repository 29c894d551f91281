//! Velvet-analog effect: a calm breathing gradient derived from one anchor
//! color, with a slowly drifting midpoint.

use vstd::prelude::*;

use crate::color::{rgb2hsv, rgb2hsv_spec, Hsv, Rgb};
use crate::gradient::{fill_gradient_fp, fill_gradient_spec, trunc_div, GradientDirection};
use crate::math8::{blend8, blend8_spec, ease_in_out_quad, ease_in_out_quad_spec, scale8,
    scale8_spec};
use crate::transition::ValueTransition;

verus! {

/// Position of `now` within a period, mapped onto 0..=255; a zero period
/// counts as one millisecond.
pub open spec fn period_progress_spec(period_ms: u64, now: u64) -> u8 {
    let c = if period_ms == 0 {
        1
    } else {
        period_ms as int
    };
    ((((now as int) % c) * 255) / c) as u8
}

/// The breathing scale at `now`: an eased sweep between 235 and 255 once per
/// period.
pub open spec fn breathe_scale_spec(period_ms: u64, now: u64) -> u8 {
    blend8_spec(235, 255, ease_in_out_quad_spec(period_progress_spec(period_ms, now)))
}

/// The gradient midpoint at `now`: the strip center plus an eased triangle
/// drift of at most `min(12, max(1, len / 10))` pixels, clamped to the strip.
pub open spec fn midpoint_spec(drift_period_ms: u64, now: u64, len: int) -> int {
    if len <= 1 {
        0
    } else {
        let last = len - 1;
        let range = if len / 10 < 1 {
            1
        } else if len / 10 > 12 {
            12
        } else {
            len / 10
        };
        let p = period_progress_spec(drift_period_ms, now);
        let tri = if p >= 128 {
            (255 - p) as u8
        } else {
            p
        };
        let e = ease_in_out_quad_spec((tri * 2) as u8);
        let offset = trunc_div((e - 128) * range, 128);
        let mid = len / 2 + offset;
        if mid < 0 {
            0
        } else if mid > last {
            last
        } else {
            mid
        }
    }
}

/// The anchor's saturation, kept a little subdued.
pub open spec fn base_sat_spec(anchor: Hsv) -> u8 {
    if anchor.sat > 220 {
        220
    } else {
        anchor.sat
    }
}

/// The shadow palette point: hue shifted down, saturation and value dimmed.
pub open spec fn shadow_spec(anchor: Hsv, breathe: u8) -> Hsv {
    Hsv {
        hue: ((anchor.hue - 10) % 256) as u8,
        sat: scale8_spec(base_sat_spec(anchor), 170),
        val: scale8_spec(anchor.val, scale8_spec(120, breathe)),
    }
}

/// The body palette point: the anchor hue at medium strength.
pub open spec fn body_spec(anchor: Hsv, breathe: u8) -> Hsv {
    Hsv {
        hue: anchor.hue,
        sat: scale8_spec(base_sat_spec(anchor), 200),
        val: scale8_spec(anchor.val, scale8_spec(200, breathe)),
    }
}

/// The highlight palette point: hue shifted up, value at the breathing
/// scale.
pub open spec fn highlight_spec(anchor: Hsv, breathe: u8) -> Hsv {
    Hsv {
        hue: ((anchor.hue + 10) % 256) as u8,
        sat: scale8_spec(base_sat_spec(anchor), 150),
        val: scale8_spec(anchor.val, breathe),
    }
}

/// Breathing gradient around a single anchor color.
#[derive(Clone, Copy, Debug)]
pub struct VelvetAnalogEffect {
    /// The anchor color, with transition support.
    pub color: ValueTransition<Rgb>,
    /// Breathing period in milliseconds.
    pub breathe_period: u64,
    /// Midpoint drift period in milliseconds.
    pub drift_period: u64,
}

/// The frame the velvet-analog effect paints at `now` over a strip that held
/// `orig`: two shortest-direction gradient segments meeting at the drifting
/// midpoint.
pub open spec fn velvet_frame_spec(e: VelvetAnalogEffect, now: u64, orig: Seq<Rgb>) -> Seq<Rgb> {
    if orig.len() == 0 {
        orig
    } else {
        let anchor_rgb = e.color.tick_spec(now).current;
        let breathe = breathe_scale_spec(e.breathe_period, now);
        let anchor = rgb2hsv_spec(anchor_rgb);
        let c1 = shadow_spec(anchor, breathe);
        let c2 = body_spec(anchor, breathe);
        let c3 = highlight_spec(anchor, breathe);
        let last = orig.len() - 1;
        let mid = midpoint_spec(e.drift_period, now, orig.len() as int);
        let first = fill_gradient_spec(orig, 0, c1, mid, c2, GradientDirection::Shortest);
        fill_gradient_spec(first, mid, c2, last, c3, GradientDirection::Shortest)
    }
}

impl VelvetAnalogEffect {
    /// Create the effect with its default 14-second breathing and 27-second
    /// drift periods.
    pub fn new(color: Rgb) -> (e: VelvetAnalogEffect)
        ensures
            e.color.current == color,
            e.color.source == color,
            e.color.target is None,
            e.color.duration == 0,
            e.color.start_time == 0,
            e.breathe_period == 14000,
            e.drift_period == 27000,
    {
        VelvetAnalogEffect {
            color: ValueTransition::new_rgb(color),
            breathe_period: 14000,
            drift_period: 27000,
        }
    }

    /// Crossfade the anchor toward a new color over `duration` milliseconds.
    pub fn set_color(&mut self, color: Rgb, duration: u64, now: u64)
        ensures
            final(self).color == old(self).color.set_spec(color, duration, now),
            final(self).breathe_period == old(self).breathe_period,
            final(self).drift_period == old(self).drift_period,
    {
        self.color.set(color, duration, now);
    }

    /// Whether an anchor crossfade is in flight.
    pub fn is_transitioning(&self) -> (b: bool)
        ensures
            b == self.color.target is Some,
    {
        self.color.is_transitioning()
    }

    /// Position of `now` within a period, mapped onto 0..=255.
    fn period_progress(period_ms: u64, now: u64) -> (p: u8)
        ensures
            p == period_progress_spec(period_ms, now),
    {
        let period = if period_ms == 0 {
            1
        } else {
            period_ms
        };
        let progress_ms = now % period;
        proof {
            assert(progress_ms * 255 < period * 256) by (nonlinear_arith)
                requires
                    progress_ms < period,
            ;
            vstd::arithmetic::div_mod::lemma_multiply_divide_lt(
                progress_ms * 255,
                period as int,
                256,
            );
        }
        (((progress_ms as u128) * 255) / (period as u128)) as u8
    }

    /// Advance the anchor crossfade to `now` and paint the breathing
    /// gradient.
    pub fn render(&mut self, now: u64, leds: &mut Vec<Rgb>)
        ensures
            final(self).color == old(self).color.tick_spec(now),
            final(self).breathe_period == old(self).breathe_period,
            final(self).drift_period == old(self).drift_period,
            final(leds)@ == velvet_frame_spec(*old(self), now, old(leds)@),
    {
        self.color.tick(now);
        let rgb = self.color.current();

        if leds.len() == 0 {
            return ;
        }

        let breathe = blend8(
            235,
            255,
            ease_in_out_quad(Self::period_progress(self.breathe_period, now)),
        );
        let anchor = rgb2hsv(rgb);
        let base_sat = if anchor.sat > 220 {
            220
        } else {
            anchor.sat
        };
        let c1 = Hsv {
            hue: (((anchor.hue as u16) + 246) % 256) as u8,
            sat: scale8(base_sat, 170),
            val: scale8(anchor.val, scale8(120, breathe)),
        };
        proof {
            vstd::arithmetic::div_mod::lemma_mod_add_multiples_vanish(anchor.hue - 10, 256);
        }
        assert(c1 == shadow_spec(rgb2hsv_spec(rgb), breathe));
        let c2 = Hsv {
            hue: anchor.hue,
            sat: scale8(base_sat, 200),
            val: scale8(anchor.val, scale8(200, breathe)),
        };
        let c3 = Hsv {
            hue: (((anchor.hue as u16) + 10) % 256) as u8,
            sat: scale8(base_sat, 150),
            val: scale8(anchor.val, breathe),
        };

        let len = leds.len();
        let last = len - 1;
        let mid = self.midpoint(now, len);

        fill_gradient_fp(leds, 0, c1, mid, c2, GradientDirection::Shortest);
        fill_gradient_fp(leds, mid, c2, last, c3, GradientDirection::Shortest);
    }

    /// The drifting gradient midpoint for a strip of `len` pixels.
    fn midpoint(&self, now: u64, len: usize) -> (mid: usize)
        ensures
            mid == midpoint_spec(self.drift_period, now, len as int),
            len > 0 ==> mid < len,
    {
        if len <= 1 {
            return 0;
        }
        let last = len - 1;
        let range: usize = if len / 10 < 1 {
            1
        } else if len / 10 > 12 {
            12
        } else {
            len / 10
        };
        let p = Self::period_progress(self.drift_period, now);
        let tri: u8 = if p >= 128 {
            255 - p
        } else {
            p
        };
        let e = ease_in_out_quad(tri * 2);
        let base_mid = len / 2;
        let mid = if e >= 128 {
            proof {
                assert((e - 128) * range <= 127 * 12) by (nonlinear_arith)
                    requires
                        e <= 255,
                        range <= 12,
                ;
            }
            let offset = ((e - 128) as usize * range) / 128;
            proof {
                assert((e - 128) * range / 128 == trunc_div((e - 128) * range, 128));
            }
            let m = base_mid + offset;
            if m > last {
                last
            } else {
                m
            }
        } else {
            proof {
                assert((128 - e) * range <= 128 * 12) by (nonlinear_arith)
                    requires
                        e < 128,
                        range <= 12,
                ;
            }
            let offset = ((128 - e) as usize * range) / 128;
            proof {
                assert((128 - e) * range == -((e - 128) * range) && (128 - e) * range >= 0) by (
                nonlinear_arith)
                    requires
                        e < 128,
                        range >= 1,
                ;
                assert(-((128 - e) * range / 128) == trunc_div((e - 128) * range, 128));
            }
            if base_mid >= offset {
                base_mid - offset
            } else {
                0
            }
        };
        mid
    }
}

} // verus!
