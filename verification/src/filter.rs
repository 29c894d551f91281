//! Post-processing filters: multiplicative color correction and the
//! brightness envelope.

use vstd::prelude::*;

use crate::color::Rgb;
use crate::math8::{scale8, scale8_spec};
use crate::transition::ValueTransition;

verus! {

/// Brightness floor and scale installed on the brightness filter.
#[derive(Clone, Copy, Debug, PartialEq, Eq, Structural)]
pub struct BrightnessRange {
    pub min: u8,
    pub max: u8,
}

impl BrightnessRange {
    /// Build a range from its floor and ceiling.
    pub fn new(min: u8, max: u8) -> (r: BrightnessRange)
        ensures
            r == (BrightnessRange { min, max }),
    {
        BrightnessRange { min, max }
    }

    /// The brightness floor.
    pub fn min(&self) -> (v: u8)
        ensures
            v == self.min,
    {
        self.min
    }

    /// The brightness ceiling, used as the global scale.
    pub fn max(&self) -> (v: u8)
        ensures
            v == self.max,
    {
        self.max
    }
}

/// Configuration of the brightness filter.
#[derive(Clone, Copy, Debug, PartialEq, Eq, Structural)]
pub struct BrightnessFilterConfig {
    /// Minimum brightness kept even at the lowest setting.
    pub min_brightness: u8,
    /// Global scale; 255 leaves requested values unchanged.
    pub scale: u8,
}

/// A pixel with each channel scaled by `s`.
pub open spec fn scale_pixel_spec(p: Rgb, s: u8) -> Rgb {
    Rgb { r: scale8_spec(p.r, s), g: scale8_spec(p.g, s), b: scale8_spec(p.b, s) }
}

/// A requested brightness corrected into the configured envelope: lowered by
/// the floor (saturating), scaled, then lifted by the floor again
/// (saturating).
pub open spec fn corrected_target_spec(brightness: u8, min_brightness: u8, scale: u8) -> u8 {
    let lowered = if brightness >= min_brightness {
        (brightness - min_brightness) as u8
    } else {
        0u8
    };
    let scaled = scale8_spec(lowered, scale);
    if scaled + min_brightness > 255 {
        255u8
    } else {
        (scaled + min_brightness) as u8
    }
}

/// A frame under the brightness envelope at level `current`: untouched at
/// 255, black at 0, otherwise every channel scaled by `current`.
pub open spec fn brightness_apply_spec(frame: Seq<Rgb>, current: u8) -> Seq<Rgb> {
    if current == 255 {
        frame
    } else if current == 0 {
        Seq::new(frame.len(), |i: int| Rgb { r: 0, g: 0, b: 0 })
    } else {
        Seq::new(frame.len(), |i: int| scale_pixel_spec(frame[i], current))
    }
}

/// The brightness envelope: a floor, a global scale, and a transitioning
/// current value the frame is scaled by.
#[derive(Clone, Copy, Debug)]
pub struct BrightnessFilter {
    /// Minimum brightness kept even at the lowest setting.
    pub min_brightness: u8,
    /// Global scale; 255 leaves requested values unchanged.
    pub scale: u8,
    /// The transitioning brightness level, 0..=255.
    pub brightness: ValueTransition<u8>,
}

impl BrightnessFilter {
    /// Build the filter resting at `brightness`.
    pub fn new(brightness: u8, config: &BrightnessFilterConfig) -> (f: BrightnessFilter)
        ensures
            f.min_brightness == config.min_brightness,
            f.scale == config.scale,
            f.brightness == (ValueTransition {
                current: brightness,
                source: brightness,
                target: None::<u8>,
                duration: 0u64,
                start_time: 0u64,
            }),
    {
        BrightnessFilter {
            min_brightness: config.min_brightness,
            scale: config.scale,
            brightness: ValueTransition::new_u8(brightness),
        }
    }

    /// Drive the level toward `brightness`, corrected into the envelope,
    /// over `duration` milliseconds.
    pub fn set(&mut self, brightness: u8, duration: u64, now: u64)
        ensures
            final(self).brightness == old(self).brightness.set_spec(
                corrected_target_spec(brightness, old(self).min_brightness, old(self).scale),
                duration,
                now,
            ),
            final(self).min_brightness == old(self).min_brightness,
            final(self).scale == old(self).scale,
    {
        let lowered = if brightness >= self.min_brightness {
            brightness - self.min_brightness
        } else {
            0
        };
        let scaled = scale8(lowered, self.scale);
        let corrected = if scaled as u16 + self.min_brightness as u16 > 255 {
            255
        } else {
            scaled + self.min_brightness
        };
        self.brightness.set(corrected, duration, now);
    }

    /// Drive the level toward a raw target, bypassing the envelope
    /// correction (used to fade out to true darkness on power-off).
    pub fn set_uncorrected(&mut self, brightness: u8, duration: u64, now: u64)
        ensures
            final(self).brightness == old(self).brightness.set_spec(brightness, duration, now),
            final(self).min_brightness == old(self).min_brightness,
            final(self).scale == old(self).scale,
    {
        self.brightness.set(brightness, duration, now);
    }

    /// Whether the level is still moving.
    pub fn is_transitioning(&self) -> (b: bool)
        ensures
            b == self.brightness.target is Some,
    {
        self.brightness.is_transitioning()
    }

    /// Replace the brightness floor.
    pub fn set_min_brightness(&mut self, min_brightness: u8)
        ensures
            *final(self) == (BrightnessFilter { min_brightness, ..*old(self) }),
    {
        self.min_brightness = min_brightness;
    }

    /// Replace the global scale.
    pub fn set_scale(&mut self, scale: u8)
        ensures
            *final(self) == (BrightnessFilter { scale, ..*old(self) }),
    {
        self.scale = scale;
    }

    /// Advance the level's transition to `now`.
    pub fn tick(&mut self, now: u64)
        ensures
            final(self).brightness == old(self).brightness.tick_spec(now),
            final(self).min_brightness == old(self).min_brightness,
            final(self).scale == old(self).scale,
    {
        self.brightness.tick(now);
    }

    /// Scale the frame by the current level: a full level leaves it alone, a
    /// zero level blacks it out, anything between scales every channel.
    pub fn apply(&self, frame: &mut Vec<Rgb>)
        ensures
            final(frame)@ == brightness_apply_spec(old(frame)@, self.brightness.current),
    {
        let current = self.brightness.current();
        if current == 255 {
            assert(frame@ =~= brightness_apply_spec(frame@, current));
            return ;
        }
        let n = frame.len();
        let mut i: usize = 0;
        if current == 0 {
            while i < n
                invariant
                    i <= n,
                    n == frame@.len(),
                    forall|k: int| 0 <= k < i ==> frame@[k] == (Rgb { r: 0, g: 0, b: 0 }),
                    forall|k: int| i <= k < n ==> frame@[k] == old(frame)@[k],
                decreases n - i,
            {
                frame.set(i, Rgb { r: 0, g: 0, b: 0 });
                i = i + 1;
            }
            assert(frame@ =~= brightness_apply_spec(old(frame)@, current));
            return ;
        }
        while i < n
            invariant
                current != 0 && current != 255,
                i <= n,
                n == frame@.len(),
                forall|k: int|
                    0 <= k < i ==> frame@[k] == scale_pixel_spec(old(frame)@[k], current),
                forall|k: int| i <= k < n ==> frame@[k] == old(frame)@[k],
            decreases n - i,
        {
            let p = frame[i];
            frame.set(
                i,
                Rgb { r: scale8(p.r, current), g: scale8(p.g, current), b: scale8(p.b, current) },
            );
            i = i + 1;
        }
        assert(frame@ =~= brightness_apply_spec(old(frame)@, current));
    }
}

/// A frame under color correction: untouched when every factor is 255,
/// otherwise each channel scaled by its factor.
pub open spec fn color_correction_apply_spec(frame: Seq<Rgb>, factors: Rgb) -> Seq<Rgb> {
    if factors == (Rgb { r: 255, g: 255, b: 255 }) {
        frame
    } else {
        Seq::new(
            frame.len(),
            |i: int|
                Rgb {
                    r: scale8_spec(frame[i].r, factors.r),
                    g: scale8_spec(frame[i].g, factors.g),
                    b: scale8_spec(frame[i].b, factors.b),
                },
        )
    }
}

/// Per-channel multiplicative color correction.
#[derive(Clone, Copy, Debug, PartialEq, Eq, Structural)]
pub struct ColorCorrection {
    /// Correction factor of each channel; 255 means no change.
    pub factors: Rgb,
}

impl ColorCorrection {
    /// Build a correction from its per-channel factors.
    pub fn new(factors: Rgb) -> (c: ColorCorrection)
        ensures
            c == (ColorCorrection { factors }),
    {
        ColorCorrection { factors }
    }

    /// Whether the correction changes anything.
    pub fn is_active(self) -> (b: bool)
        ensures
            b == (self.factors != (Rgb { r: 255, g: 255, b: 255 })),
    {
        self.factors.r != 255 || self.factors.g != 255 || self.factors.b != 255
    }

    /// Scale each pixel channel by its correction factor; an all-255
    /// correction leaves the frame alone.
    pub fn apply(&self, frame: &mut Vec<Rgb>)
        ensures
            final(frame)@ == color_correction_apply_spec(old(frame)@, self.factors),
    {
        if !self.is_active() {
            assert(frame@ =~= color_correction_apply_spec(frame@, self.factors));
            return ;
        }
        let n = frame.len();
        let mut i: usize = 0;
        while i < n
            invariant
                i <= n,
                n == frame@.len(),
                forall|k: int|
                    0 <= k < i ==> frame@[k] == (Rgb {
                        r: scale8_spec(old(frame)@[k].r, self.factors.r),
                        g: scale8_spec(old(frame)@[k].g, self.factors.g),
                        b: scale8_spec(old(frame)@[k].b, self.factors.b),
                    }),
                forall|k: int| i <= k < n ==> frame@[k] == old(frame)@[k],
            decreases n - i,
        {
            let p = frame[i];
            frame.set(
                i,
                Rgb {
                    r: scale8(p.r, self.factors.r),
                    g: scale8(p.g, self.factors.g),
                    b: scale8(p.b, self.factors.b),
                },
            );
            i = i + 1;
        }
        assert(frame@ =~= color_correction_apply_spec(old(frame)@, self.factors));
    }
}

/// Configuration of the whole filter stage.
#[derive(Clone, Copy, Debug)]
pub struct FilterProcessorConfig {
    /// Brightness envelope configuration.
    pub brightness: BrightnessFilterConfig,
    /// Color correction factors.
    pub color_correction: Rgb,
}

/// The filter stage: the brightness envelope and the color correction.
#[derive(Clone, Copy, Debug)]
pub struct FilterProcessor {
    /// Brightness envelope.
    pub brightness: BrightnessFilter,
    /// Color correction.
    pub color_correction: ColorCorrection,
}

impl FilterProcessor {
    /// Build the filter stage with the brightness resting at zero.
    pub fn new(config: &FilterProcessorConfig) -> (f: FilterProcessor)
        ensures
            f.brightness.min_brightness == config.brightness.min_brightness,
            f.brightness.scale == config.brightness.scale,
            f.brightness.brightness == (ValueTransition {
                current: 0u8,
                source: 0u8,
                target: None::<u8>,
                duration: 0u64,
                start_time: 0u64,
            }),
            f.color_correction == (ColorCorrection { factors: config.color_correction }),
    {
        FilterProcessor {
            brightness: BrightnessFilter::new(0, &config.brightness),
            color_correction: ColorCorrection::new(config.color_correction),
        }
    }

    /// Advance the stateful filters to `now`.
    pub fn tick(&mut self, now: u64)
        ensures
            final(self).brightness.brightness == old(self).brightness.brightness.tick_spec(now),
            final(self).brightness.min_brightness == old(self).brightness.min_brightness,
            final(self).brightness.scale == old(self).brightness.scale,
            final(self).color_correction == old(self).color_correction,
    {
        self.brightness.tick(now);
    }
}

} // verus!
