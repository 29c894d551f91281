//! Drift-corrected frame pacing around the renderer and the output driver.

use vstd::prelude::*;

use crate::color::Rgb;
use crate::intent_processor::LightChangeIntent;
use crate::renderer::{render_step_spec, Renderer};

verus! {

/// Milliseconds per frame at the default 90 frames per second.
pub const DEFAULT_FRAME_DURATION_MS: u64 = 11;

/// A sink for finished frames; hardware-specific encoding and timing live
/// behind it.
pub trait OutputDriver {
    /// Write one full frame to the LED strip.
    fn write(&mut self, colors: &Vec<Rgb>);
}

/// What one frame tick reports back: the next deadline, and how long the
/// caller should wait before the next tick.
#[derive(Clone, Copy, Debug, PartialEq, Eq, Structural)]
pub struct FrameResult {
    /// The deadline of the next frame, in milliseconds.
    pub next_deadline: u64,
    /// How long to wait until that deadline; zero when behind schedule.
    pub sleep_duration: u64,
}

/// The next-frame deadline after drift correction: when `now` has fallen
/// more than two frame durations past the deadline, the backlog is skipped
/// and pacing restarts from `now`.
pub open spec fn drift_corrected_spec(next_frame: u64, frame_duration: u64, now: u64) -> int {
    if now > next_frame + 2 * frame_duration {
        now as int
    } else {
        next_frame as int
    }
}

/// The next-frame deadline after one tick: the drift-corrected deadline
/// advanced by one frame, saturating at the clock's end.
pub open spec fn next_deadline_spec(next_frame: u64, frame_duration: u64, now: u64) -> u64 {
    let advanced = drift_corrected_spec(next_frame, frame_duration, now) + frame_duration;
    if advanced > u64::MAX {
        u64::MAX as u64
    } else {
        advanced as u64
    }
}

/// How long to wait after a tick at `now` until the next deadline.
pub open spec fn sleep_duration_spec(next_deadline: u64, now: u64) -> u64 {
    if next_deadline > now {
        (next_deadline - now) as u64
    } else {
        0
    }
}

/// The frame scheduler: wraps the renderer and the output driver and paces
/// them against a millisecond clock with drift correction.
pub struct FrameScheduler<O: OutputDriver> {
    /// The output driver frames are handed to.
    pub output: O,
    /// The renderer producing the frames.
    pub renderer: Renderer,
    /// The deadline of the next frame.
    pub next_frame: u64,
    /// Length of one frame in milliseconds.
    pub frame_duration: u64,
}

impl<O: OutputDriver> FrameScheduler<O> {
    /// Wrap a renderer and a driver at the default frame rate.
    pub fn new(renderer: Renderer, driver: O) -> (s: FrameScheduler<O>)
        ensures
            s.renderer == renderer,
            s.next_frame == 0,
            s.frame_duration == DEFAULT_FRAME_DURATION_MS,
    {
        FrameScheduler {
            output: driver,
            renderer,
            next_frame: 0,
            frame_duration: DEFAULT_FRAME_DURATION_MS,
        }
    }

    /// Wrap a renderer and a driver with a custom frame duration.
    pub fn with_frame_duration(renderer: Renderer, driver: O, frame_duration: u64) -> (s:
        FrameScheduler<O>)
        ensures
            s.renderer == renderer,
            s.next_frame == 0,
            s.frame_duration == frame_duration,
    {
        FrameScheduler { output: driver, renderer, next_frame: 0, frame_duration }
    }

    /// The renderer, for observation.
    pub fn renderer(&self) -> (r: &Renderer)
        ensures
            r == &self.renderer,
    {
        &self.renderer
    }

    /// Process one frame: correct drift, render the frame once with the
    /// drained intents, hand the full buffer to the driver, and report the
    /// next deadline with the time left until it.
    pub fn tick(&mut self, now: u64, intents: &[LightChangeIntent]) -> (r: FrameResult)
        requires
            old(self).renderer.wf(),
        ensures
            final(self).renderer.wf(),
            final(self).renderer.model() == render_step_spec(
                old(self).renderer.model(),
                now,
                intents@,
            ),
            final(self).next_frame == next_deadline_spec(
                old(self).next_frame,
                old(self).frame_duration,
                now,
            ),
            final(self).frame_duration == old(self).frame_duration,
            r.next_deadline == final(self).next_frame,
            r.sleep_duration == sleep_duration_spec(final(self).next_frame, now),
            now > old(self).next_frame + 2 * old(self).frame_duration
                ==> final(self).next_frame as int == now + old(self).frame_duration
                || final(self).next_frame == u64::MAX,
    {
        let drift_limit: u128 = (self.next_frame as u128) + 2 * (self.frame_duration as u128);
        if (now as u128) > drift_limit {
            self.next_frame = now;
        }

        self.renderer.render(now, intents);
        self.output.write(self.renderer.frame());

        let advanced: u128 = (self.next_frame as u128) + (self.frame_duration as u128);
        self.next_frame = if advanced > u64::MAX as u128 {
            u64::MAX
        } else {
            advanced as u64
        };

        let sleep_duration = if self.next_frame > now {
            self.next_frame - now
        } else {
            0
        };

        FrameResult { next_deadline: self.next_frame, sleep_duration }
    }
}

} // verus!
