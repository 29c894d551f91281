//! Time-bounded interpolation from a stored source value to a target.
//!
//! A transition keeps a current value; `set` retargets it (reading the
//! present interpolated value as the new source, so rapid retargeting never
//! snaps), and `tick` advances the interpolation against a millisecond
//! clock.

use vstd::prelude::*;

use crate::color::{blend_colors, blend_colors_spec, Rgb};
use crate::math8::{
    blend8, blend8_spec, lemma_blend8_endpoints, lemma_blend8_monotone, lemma_progress8_monotone,
    progress8, progress8_spec,
};

verus! {

/// A value type that can be blended toward a target by an amount 0..=255.
pub trait Blendable: Sized + Copy {
    /// Mathematical meaning of `blend`.
    spec fn blend_spec(a: Self, b: Self, amount_of_b: u8) -> Self;

    /// Blend `a` toward `b`; an amount of 0 gives `a`, 255 gives `b`.
    fn blend(a: Self, b: Self, amount_of_b: u8) -> (r: Self)
        ensures
            r == Self::blend_spec(a, b, amount_of_b),
    ;
}

impl Blendable for u8 {
    open spec fn blend_spec(a: u8, b: u8, amount_of_b: u8) -> u8 {
        blend8_spec(a, b, amount_of_b)
    }

    fn blend(a: u8, b: u8, amount_of_b: u8) -> (r: u8) {
        blend8(a, b, amount_of_b)
    }
}

impl Blendable for Rgb {
    open spec fn blend_spec(a: Rgb, b: Rgb, amount_of_b: u8) -> Rgb {
        blend_colors_spec(a, b, amount_of_b)
    }

    fn blend(a: Rgb, b: Rgb, amount_of_b: u8) -> (r: Rgb) {
        blend_colors(a, b, amount_of_b)
    }
}

/// A transition of a value of type `T`: the current interpolated value, the
/// source it started from, an optional target (present exactly while a
/// transition is in flight), and the window it runs over.
#[derive(Clone, Copy, Debug)]
pub struct ValueTransition<T: Blendable> {
    /// Current interpolated value.
    pub current: T,
    /// Value at the start of the transition.
    pub source: T,
    /// Target value; absent when no transition is in progress.
    pub target: Option<T>,
    /// Total transition duration in milliseconds.
    pub duration: u64,
    /// Millisecond timestamp at which the transition started.
    pub start_time: u64,
}

impl<T: Blendable> ValueTransition<T> {
    /// The state after retargeting: a zero duration snaps everything to the
    /// new value; otherwise the present current value becomes the source and
    /// the transition window is recorded.
    pub open spec fn set_spec(self, value: T, duration: u64, start_time: u64) -> ValueTransition<
        T,
    > {
        if duration == 0 {
            ValueTransition {
                current: value,
                source: value,
                target: None,
                duration: 0,
                start_time,
            }
        } else {
            ValueTransition {
                current: self.current,
                source: self.current,
                target: Some(value),
                duration,
                start_time,
            }
        }
    }

    /// The state after advancing to `now`: idle transitions are untouched;
    /// one whose window has passed snaps to its target; one in flight blends
    /// from source to target by the elapsed progress. Time before the start
    /// counts as no elapsed time.
    pub open spec fn tick_spec(self, now_ms: u64) -> ValueTransition<T> {
        match self.target {
            None => self,
            Some(tgt) => {
                let elapsed: u64 = if now_ms >= self.start_time {
                    (now_ms - self.start_time) as u64
                } else {
                    0
                };
                if elapsed >= self.duration {
                    ValueTransition {
                        current: tgt,
                        source: tgt,
                        target: None,
                        duration: self.duration,
                        start_time: self.start_time,
                    }
                } else {
                    ValueTransition {
                        current: T::blend_spec(
                            self.source,
                            tgt,
                            progress8_spec(elapsed, self.duration),
                        ),
                        source: self.source,
                        target: self.target,
                        duration: self.duration,
                        start_time: self.start_time,
                    }
                }
            },
        }
    }

    /// Create a transition resting at `initial`.
    pub fn new(initial: T) -> (t: ValueTransition<T>)
        ensures
            t.current == initial,
            t.source == initial,
            t.target is None,
            t.duration == 0,
            t.start_time == 0,
    {
        ValueTransition {
            current: initial,
            source: initial,
            target: None,
            duration: 0,
            start_time: 0,
        }
    }

    /// The current interpolated value.
    pub fn current(&self) -> (v: T)
        ensures
            v == self.current,
    {
        self.current
    }

    /// Whether a transition is in flight.
    pub fn is_transitioning(&self) -> (b: bool)
        ensures
            b == self.target is Some,
    {
        self.target.is_some()
    }

    /// Retarget the transition toward `value` over `duration` milliseconds
    /// starting at `start_time`; a zero duration snaps immediately.
    pub fn set(&mut self, value: T, duration: u64, start_time: u64)
        ensures
            *final(self) == old(self).set_spec(value, duration, start_time),
    {
        self.start_time = start_time;
        if duration == 0 {
            self.current = value;
            self.source = value;
            self.target = None;
            self.duration = 0;
        } else {
            self.source = self.current;
            self.target = Some(value);
            self.duration = duration;
        }
    }

    /// Advance the transition to the time `now_ms`.
    pub fn tick(&mut self, now_ms: u64)
        ensures
            *final(self) == old(self).tick_spec(now_ms),
    {
        let target = match self.target {
            None => { return ; },
            Some(t) => t,
        };
        let elapsed: u64 = if now_ms >= self.start_time {
            now_ms - self.start_time
        } else {
            0
        };
        if elapsed >= self.duration {
            self.current = target;
            self.source = target;
            self.target = None;
            return ;
        }
        let progress = progress8(elapsed, self.duration);
        self.current = T::blend(self.source, target, progress);
    }
}

impl ValueTransition<u8> {
    /// Create a new 8-bit value transition.
    pub fn new_u8(initial: u8) -> (t: ValueTransition<u8>)
        ensures
            t.current == initial,
            t.source == initial,
            t.target is None,
            t.duration == 0,
            t.start_time == 0,
    {
        ValueTransition::new(initial)
    }
}

impl ValueTransition<Rgb> {
    /// Create a new color transition.
    pub fn new_rgb(initial: Rgb) -> (t: ValueTransition<Rgb>)
        ensures
            t.current == initial,
            t.source == initial,
            t.target is None,
            t.duration == 0,
            t.start_time == 0,
    {
        ValueTransition::new(initial)
    }
}

/// The interpolated 8-bit value of a transition from `source` to `target`
/// over `duration` milliseconds starting at `start`, observed at `now`:
/// exactly what `tick` stores in `current` at that time.
pub open spec fn u8_transition_value(
    source: u8,
    target: u8,
    duration: u64,
    start: u64,
    now: u64,
) -> u8 {
    let elapsed: u64 = if now >= start {
        (now - start) as u64
    } else {
        0
    };
    if elapsed >= duration {
        target
    } else {
        blend8_spec(source, target, progress8_spec(elapsed, duration))
    }
}

/// What `tick` stores in `current` is exactly the interpolated transition
/// value: the law below therefore speaks about the implementation.
pub proof fn lemma_tick_stores_transition_value(t: ValueTransition<u8>, target: u8, now: u64)
    requires
        t.target == Some(target),
    ensures
        t.tick_spec(now).current == u8_transition_value(
            t.source,
            target,
            t.duration,
            t.start_time,
            now,
        ),
{
}

/// An 8-bit transition starts at its source, ends at its target, and moves
/// monotonically between them: never decreasing while rising toward a larger
/// target, never increasing while falling toward a smaller one.
pub proof fn lemma_u8_transition_monotone(
    source: u8,
    target: u8,
    duration: u64,
    start: u64,
    t1: u64,
    t2: u64,
)
    requires
        duration > 0,
        start <= t1 <= t2,
    ensures
        u8_transition_value(source, target, duration, start, start) == source,
        t1 >= start + duration ==> u8_transition_value(source, target, duration, start, t1)
            == target,
        source <= target ==> u8_transition_value(source, target, duration, start, t1)
            <= u8_transition_value(source, target, duration, start, t2),
        source >= target ==> u8_transition_value(source, target, duration, start, t1)
            >= u8_transition_value(source, target, duration, start, t2),
{
    lemma_blend8_endpoints(source, target);
    let e1: u64 = (t1 - start) as u64;
    let e2: u64 = (t2 - start) as u64;
    lemma_progress8_monotone(e1, e2, duration);
    lemma_blend8_monotone(
        source,
        target,
        progress8_spec(e1, duration),
        progress8_spec(e2, duration),
    );
    if e1 < duration && e2 >= duration {
        lemma_blend8_monotone(source, target, progress8_spec(e1, duration), 255);
    }
}

} // verus!
