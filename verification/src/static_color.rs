//! Solid color fill with crossfade between anchor colors.

use vstd::prelude::*;

use crate::color::Rgb;
use crate::transition::ValueTransition;

verus! {

/// Fills every pixel with one color, crossfading smoothly when the color
/// changes.
#[derive(Clone, Copy, Debug)]
pub struct StaticColorEffect {
    /// The anchor color, with transition support.
    pub color: ValueTransition<Rgb>,
}

impl StaticColorEffect {
    /// Create the effect resting at `color`.
    pub fn new(color: Rgb) -> (e: StaticColorEffect)
        ensures
            e.color.current == color,
            e.color.source == color,
            e.color.target is None,
            e.color.duration == 0,
            e.color.start_time == 0,
    {
        StaticColorEffect { color: ValueTransition::new_rgb(color) }
    }

    /// Crossfade toward a new color over `duration` milliseconds.
    pub fn set_color(&mut self, color: Rgb, duration: u64, now: u64)
        ensures
            final(self).color == old(self).color.set_spec(color, duration, now),
    {
        self.color.set(color, duration, now);
    }

    /// Whether a crossfade is in flight.
    pub fn is_transitioning(&self) -> (b: bool)
        ensures
            b == self.color.target is Some,
    {
        self.color.is_transitioning()
    }

    /// Advance the crossfade to `now` and paint every pixel with the current
    /// color.
    pub fn render(&mut self, now: u64, leds: &mut Vec<Rgb>)
        ensures
            final(self).color == old(self).color.tick_spec(now),
            final(leds)@ == Seq::new(
                old(leds)@.len(),
                |i: int| old(self).color.tick_spec(now).current,
            ),
    {
        self.color.tick(now);
        let c = self.color.current();
        let n = leds.len();
        let mut i: usize = 0;
        while i < n
            invariant
                i <= n,
                n == leds@.len(),
                c == self.color.current,
                forall|k: int| 0 <= k < i ==> leds@[k] == c,
            decreases n - i,
        {
            leds.set(i, c);
            i = i + 1;
        }
        assert(leds@ =~= Seq::new(old(leds)@.len(), |i: int| old(self).color.tick_spec(now).current));
    }
}

} // verus!
