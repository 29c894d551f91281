//! The renderer: owner of all mutable state, orchestrating intents,
//! operations, the active effect and the filters into one frame per tick.

use vstd::prelude::*;

use crate::bounds::RenderingBounds;
use crate::color::Rgb;
use crate::effect::{
    slot_frame_spec, slot_is_transitioning_spec, slot_precise_colors_spec, slot_set_color_spec,
    slot_step_spec, to_slot_spec, EffectId, EffectSlot,
};
use crate::filter::{
    brightness_apply_spec, color_correction_apply_spec, corrected_target_spec, BrightnessFilter,
    ColorCorrection, FilterProcessor, FilterProcessorConfig,
};
use crate::intent_processor::{
    head_coherent, intents_effects_spec, intents_queue_spec, process_pending, IntentEffects,
    LightChangeIntent,
};
use crate::operation::{Operation, OperationStack};

verus! {

/// Durations of the renderer's transitions, in milliseconds.
#[derive(Clone, Copy, Debug, PartialEq, Eq, Structural)]
pub struct TransitionTimings {
    /// Duration of the fade-out phase of an effect swap.
    pub fade_out: u64,
    /// Duration of the fade-in phase of an effect swap.
    pub fade_in: u64,
    /// Duration of a color change.
    pub color_change: u64,
    /// Duration of a brightness change.
    pub brightness: u64,
}

/// The committed light state: the last committed anchor color, the active
/// effect, and the brightness target (preserved across power-off).
#[derive(Clone, Copy, Debug)]
pub struct LightState {
    /// Last committed anchor color.
    pub color: Rgb,
    /// The active effect.
    pub current_effect: EffectSlot,
    /// The brightness target, 0..=255.
    pub brightness: u8,
}

/// Everything the renderer is built from.
#[derive(Clone, Copy, Debug)]
pub struct LightEngineConfig {
    /// The initial effect.
    pub effect: EffectId,
    /// The initial rendering bounds.
    pub bounds: RenderingBounds,
    /// The filter stage configuration.
    pub filters: FilterProcessorConfig,
    /// Transition durations.
    pub timings: TransitionTimings,
    /// The initial brightness target.
    pub brightness: u8,
    /// The initial anchor color.
    pub color: Rgb,
}

/// The renderer's observable state, as one mathematical value.
pub ghost struct RendererModel {
    /// Transition durations.
    pub timings: TransitionTimings,
    /// Rendering bounds.
    pub bounds: RenderingBounds,
    /// Last committed anchor color.
    pub state_color: Rgb,
    /// The active effect.
    pub effect: EffectSlot,
    /// The brightness target.
    pub state_brightness: u8,
    /// The queued operations.
    pub queue: Seq<Operation>,
    /// The head operation.
    pub head: Option<Operation>,
    /// The full frame buffer.
    pub frame: Seq<Rgb>,
    /// The brightness envelope.
    pub brightness_filter: BrightnessFilter,
    /// The color correction factors.
    pub color_correction: Rgb,
}

/// Bounds clamped into a strip of `len` pixels: the end first, then the
/// start against the clamped end.
pub open spec fn clamp_bounds_spec(b: RenderingBounds, len: int) -> RenderingBounds {
    let end = if b.end as int > len {
        len as u8
    } else {
        b.end
    };
    let start = if b.start > end {
        end
    } else {
        b.start
    };
    RenderingBounds { start, end }
}

/// The model after the recorded intent side effects are applied: new bounds
/// (clamped to the strip), new correction factors, new brightness envelope
/// limits.
pub open spec fn model_apply_effects(m: RendererModel, eff: IntentEffects) -> RendererModel {
    let m1 = match eff.bounds {
        Some(b) => RendererModel { bounds: clamp_bounds_spec(b, m.frame.len() as int), ..m },
        None => m,
    };
    let m2 = match eff.color_correction {
        Some(c) => RendererModel { color_correction: c, ..m1 },
        None => m1,
    };
    match eff.brightness_range {
        Some(r) => RendererModel {
            brightness_filter: BrightnessFilter {
                min_brightness: r.min,
                scale: r.max,
                brightness: m2.brightness_filter.brightness,
            },
            ..m2
        },
        None => m2,
    }
}

/// Whether the head operation's transition has completed: brightness-like
/// operations wait on the brightness envelope, color changes on the
/// effect's crossfade, effect swaps complete at once.
pub open spec fn op_completes(m: RendererModel, op: Operation) -> bool {
    match op {
        Operation::SetBrightness(_) => m.brightness_filter.brightness.target is None,
        Operation::PowerOff => m.brightness_filter.brightness.target is None,
        Operation::PowerOn => m.brightness_filter.brightness.target is None,
        Operation::SetColor(_) => !slot_is_transitioning_spec(m.effect),
        Operation::SwitchEffect(_) => true,
    }
}

/// The model after a completed operation is committed to the light state.
pub open spec fn model_commit(m: RendererModel, op: Operation) -> RendererModel {
    match op {
        Operation::SetBrightness(b) => RendererModel { state_brightness: b, ..m },
        Operation::SetColor(c) => RendererModel { state_color: c, ..m },
        Operation::SwitchEffect(id) => RendererModel {
            effect: to_slot_spec(id, m.state_color),
            ..m
        },
        Operation::PowerOff => m,
        Operation::PowerOn => m,
    }
}

/// The model after the next operation's transition is started.
pub open spec fn model_start(m: RendererModel, op: Operation, now: u64) -> RendererModel {
    match op {
        Operation::SetBrightness(b) => RendererModel {
            brightness_filter: BrightnessFilter {
                brightness: m.brightness_filter.brightness.set_spec(
                    corrected_target_spec(
                        b,
                        m.brightness_filter.min_brightness,
                        m.brightness_filter.scale,
                    ),
                    m.timings.brightness,
                    now,
                ),
                ..m.brightness_filter
            },
            ..m
        },
        Operation::SetColor(c) => RendererModel {
            effect: slot_set_color_spec(m.effect, c, m.timings.color_change, now),
            ..m
        },
        Operation::PowerOff => RendererModel {
            brightness_filter: BrightnessFilter {
                brightness: m.brightness_filter.brightness.set_spec(0, m.timings.brightness, now),
                ..m.brightness_filter
            },
            ..m
        },
        Operation::PowerOn => RendererModel {
            brightness_filter: BrightnessFilter {
                brightness: m.brightness_filter.brightness.set_spec(
                    corrected_target_spec(
                        m.state_brightness,
                        m.brightness_filter.min_brightness,
                        m.brightness_filter.scale,
                    ),
                    m.timings.brightness,
                    now,
                ),
                ..m.brightness_filter
            },
            ..m
        },
        Operation::SwitchEffect(_) => m,
    }
}

/// One step of operation advancement: if the head operation has completed,
/// commit it, advance the head to the next queued operation, and start that
/// operation's transition within the same frame.
pub open spec fn model_process_operations(m: RendererModel, now: u64) -> RendererModel {
    match m.head {
        None => m,
        Some(op) => if !op_completes(m, op) {
            m
        } else {
            let m1 = model_commit(m, op);
            let m2 = if m1.queue.len() == 0 {
                RendererModel { head: None, ..m1 }
            } else {
                RendererModel { head: Some(m1.queue[0]), queue: m1.queue.drop_first(), ..m1 }
            };
            match m2.head {
                None => m2,
                Some(next) => model_start(m2, next, now),
            }
        },
    }
}

/// The model after the stateful filters advance to `now`.
pub open spec fn model_tick_filters(m: RendererModel, now: u64) -> RendererModel {
    RendererModel {
        brightness_filter: BrightnessFilter {
            brightness: m.brightness_filter.brightness.tick_spec(now),
            ..m.brightness_filter
        },
        ..m
    }
}

/// A frame with the pixels `s..e` replaced by `region` and the rest kept.
pub open spec fn splice_spec(frame: Seq<Rgb>, s: int, e: int, region: Seq<Rgb>) -> Seq<Rgb> {
    Seq::new(
        frame.len(),
        |i: int|
            if s <= i < e {
                region[i - s]
            } else {
                frame[i]
            },
    )
}

/// The bounded region after the active effect paints it and the filters run
/// over it: color correction only for effects that ask for precise colors,
/// then the brightness envelope.
pub open spec fn region_pipeline_spec(m: RendererModel, now: u64) -> Seq<Rgb> {
    let region = m.frame.subrange(m.bounds.start as int, m.bounds.end as int);
    let painted = slot_frame_spec(m.effect, now, region);
    let corrected = if slot_precise_colors_spec(m.effect) {
        color_correction_apply_spec(painted, m.color_correction)
    } else {
        painted
    };
    brightness_apply_spec(corrected, m.brightness_filter.brightness.current)
}

/// The model after the active effect paints the bounded region and the
/// filters run over it; pixels outside the bounds are untouched.
pub open spec fn model_render_frame(m: RendererModel, now: u64) -> RendererModel {
    RendererModel {
        frame: splice_spec(
            m.frame,
            m.bounds.start as int,
            m.bounds.end as int,
            region_pipeline_spec(m, now),
        ),
        effect: slot_step_spec(m.effect, now),
        ..m
    }
}

/// The queue after the drained intents are processed, together with the
/// head it leaves behind.
pub open spec fn model_process_intents(
    m: RendererModel,
    intents: Seq<LightChangeIntent>,
) -> RendererModel {
    let eff = intents_effects_spec(
        intents,
        IntentEffects { bounds: None, color_correction: None, brightness_range: None },
    );
    let q = intents_queue_spec(intents, m.queue, m.state_brightness);
    let head = if m.head is Some {
        m.head
    } else if q.len() > 0 {
        Some(q[0])
    } else {
        None
    };
    RendererModel { queue: q, head, ..model_apply_effects(m, eff) }
}

/// One whole frame: drain intents, advance the operation queue, tick the
/// filters, paint the bounded region, and filter it.
pub open spec fn render_step_spec(
    m: RendererModel,
    now: u64,
    intents: Seq<LightChangeIntent>,
) -> RendererModel {
    let m1 = model_process_intents(m, intents);
    let m2 = model_process_operations(m1, now);
    let m3 = model_tick_filters(m2, now);
    model_render_frame(m3, now)
}

/// The initial model a configuration describes: a dark frame, an empty
/// queue, and the configured effect built from the configured color.
pub open spec fn initial_model_spec(config: LightEngineConfig, led_count: int) -> RendererModel {
    RendererModel {
        timings: config.timings,
        bounds: config.bounds,
        state_color: config.color,
        effect: to_slot_spec(config.effect, config.color),
        state_brightness: config.brightness,
        queue: Seq::empty(),
        head: None,
        frame: Seq::new(led_count as nat, |i: int| Rgb { r: 0, g: 0, b: 0 }),
        brightness_filter: BrightnessFilter {
            min_brightness: config.filters.brightness.min_brightness,
            scale: config.filters.brightness.scale,
            brightness: crate::transition::ValueTransition {
                current: 0,
                source: 0,
                target: None,
                duration: 0,
                start_time: 0,
            },
        },
        color_correction: config.filters.color_correction,
    }
}

/// The renderer: the committed state, the operation queue, the frame buffer
/// and the filter stage, driven one frame at a time.
pub struct Renderer {
    /// Transition durations.
    pub timings: TransitionTimings,
    /// Rendering bounds.
    pub bounds: RenderingBounds,
    /// The committed light state.
    pub state: LightState,
    /// The operation queue.
    pub stack: OperationStack,
    /// The full frame buffer.
    pub frame_buffer: Vec<Rgb>,
    /// The filter stage.
    pub filters: FilterProcessor,
}

impl Renderer {
    /// The renderer's observable state as one mathematical value.
    pub open spec fn model(self) -> RendererModel {
        RendererModel {
            timings: self.timings,
            bounds: self.bounds,
            state_color: self.state.color,
            effect: self.state.current_effect,
            state_brightness: self.state.brightness,
            queue: self.stack.queue(),
            head: self.stack.current_op(),
            frame: self.frame_buffer@,
            brightness_filter: self.filters.brightness,
            color_correction: self.filters.color_correction.factors,
        }
    }

    /// A well-formed renderer: a coherent queue and bounds inside the
    /// frame buffer.
    pub open spec fn wf(self) -> bool {
        &&& self.stack.wf()
        &&& head_coherent(self.stack)
        &&& self.bounds.start <= self.bounds.end
        &&& self.bounds.end as int <= self.frame_buffer@.len()
    }

    /// Build a renderer over a strip of `led_count` dark pixels.
    pub fn new(config: &LightEngineConfig, led_count: usize) -> (r: Renderer)
        requires
            config.bounds.start <= config.bounds.end,
            config.bounds.end as int <= led_count as int,
        ensures
            r.wf(),
            r.model() == initial_model_spec(*config, led_count as int),
    {
        let mut frame_buffer: Vec<Rgb> = Vec::new();
        let mut i: usize = 0;
        while i < led_count
            invariant
                i <= led_count,
                frame_buffer@.len() == i,
                forall|k: int| 0 <= k < i ==> frame_buffer@[k] == (Rgb { r: 0, g: 0, b: 0 }),
            decreases led_count - i,
        {
            frame_buffer.push(Rgb { r: 0, g: 0, b: 0 });
            i = i + 1;
        }
        let r = Renderer {
            timings: config.timings,
            bounds: config.bounds,
            state: LightState {
                color: config.color,
                current_effect: config.effect.to_slot(config.color),
                brightness: config.brightness,
            },
            stack: OperationStack::new(),
            frame_buffer,
            filters: FilterProcessor::new(&config.filters),
        };
        proof {
            assert(r.model().frame =~= initial_model_spec(*config, led_count as int).frame);
        }
        r
    }

    /// The full frame buffer, as last rendered.
    pub fn frame(&self) -> (f: &Vec<Rgb>)
        ensures
            f@ == self.frame_buffer@,
    {
        &self.frame_buffer
    }

    /// Apply the recorded intent side effects: replace the bounds (clamped
    /// to the strip), the color correction, and the brightness envelope
    /// limits.
    fn apply_effects(&mut self, effects: &IntentEffects)
        requires
            old(self).wf(),
        ensures
            final(self).wf(),
            final(self).model() == model_apply_effects(old(self).model(), *effects),
    {
        if let Some(bounds) = effects.bounds {
            let len = self.frame_buffer.len();
            let end = if bounds.end as usize > len {
                len as u8
            } else {
                bounds.end
            };
            let start = if bounds.start > end {
                end
            } else {
                bounds.start
            };
            self.bounds = RenderingBounds { start, end };
        }
        if let Some(color_correction) = effects.color_correction {
            self.filters.color_correction = ColorCorrection::new(color_correction);
        }
        if let Some(brightness_range) = effects.brightness_range {
            self.filters.brightness.set_min_brightness(brightness_range.min());
            self.filters.brightness.set_scale(brightness_range.max());
        }
    }

    /// Advance the operation queue: commit the head operation once its
    /// transition has completed, move to the next one, and start its
    /// transition in the same frame.
    fn process_operations(&mut self, now: u64)
        requires
            old(self).wf(),
        ensures
            final(self).wf(),
            final(self).model() == model_process_operations(old(self).model(), now),
    {
        let current = match self.stack.current() {
            None => { return ; },
            Some(c) => c,
        };
        let is_complete = match current {
            Operation::SetBrightness(_) => !self.filters.brightness.is_transitioning(),
            Operation::PowerOff => !self.filters.brightness.is_transitioning(),
            Operation::PowerOn => !self.filters.brightness.is_transitioning(),
            Operation::SetColor(_) => !self.state.current_effect.is_transitioning(),
            Operation::SwitchEffect(_) => true,
        };
        if !is_complete {
            return ;
        }
        match current {
            Operation::SetBrightness(brightness) => {
                self.state.brightness = brightness;
            },
            Operation::SetColor(color) => {
                self.state.color = color;
            },
            Operation::SwitchEffect(id) => {
                self.state.current_effect = id.to_slot(self.state.color);
                self.state.current_effect.reset();
            },
            Operation::PowerOff => {},
            Operation::PowerOn => {},
        }
        let next = match self.stack.pop() {
            None => { return ; },
            Some(n) => n,
        };
        match next {
            Operation::SetBrightness(brightness) => {
                self.filters.brightness.set(brightness, self.timings.brightness, now);
            },
            Operation::SetColor(color) => {
                self.state.current_effect.set_color(color, self.timings.color_change, now);
            },
            Operation::PowerOff => {
                self.filters.brightness.set_uncorrected(0, self.timings.brightness, now);
            },
            Operation::PowerOn => {
                self.filters.brightness.set(self.state.brightness, self.timings.brightness, now);
            },
            Operation::SwitchEffect(_) => {},
        }
    }

    /// Copy the pixels `start..end` out into their own vector.
    fn copy_region_out(frame: &Vec<Rgb>, start: usize, end: usize) -> (region: Vec<Rgb>)
        requires
            start <= end,
            end <= frame@.len(),
        ensures
            region@ == frame@.subrange(start as int, end as int),
    {
        let mut region: Vec<Rgb> = Vec::new();
        let mut i: usize = start;
        while i < end
            invariant
                start <= i <= end,
                end <= frame@.len(),
                region@ =~= frame@.subrange(start as int, i as int),
            decreases end - i,
        {
            region.push(frame[i]);
            i = i + 1;
        }
        proof {
            assert(region@ =~= frame@.subrange(start as int, end as int));
        }
        region
    }

    /// Write `region` back over the pixels `start..end`, keeping the rest.
    fn splice_region_back(frame: &mut Vec<Rgb>, start: usize, end: usize, region: &Vec<Rgb>)
        requires
            start <= end,
            end <= old(frame)@.len(),
            region@.len() == end - start,
        ensures
            final(frame)@ == splice_spec(old(frame)@, start as int, end as int, region@),
    {
        let mut j: usize = start;
        while j < end
            invariant
                start <= j <= end,
                end <= frame@.len(),
                frame@.len() == old(frame)@.len(),
                region@.len() == end - start,
                forall|k: int| start <= k < j ==> frame@[k] == region@[k - start],
                forall|k: int|
                    0 <= k < frame@.len() && !(start <= k < j) ==> frame@[k] == old(frame)@[k],
            decreases end - j,
        {
            let c = region[j - start];
            frame.set(j, c);
            j = j + 1;
        }
        proof {
            assert(frame@ =~= splice_spec(old(frame)@, start as int, end as int, region@));
        }
    }

    /// Render the active effect into the bounded region of the frame
    /// buffer and run the filter stage over it.
    #[verifier::spinoff_prover]
    fn render_frame_stage(&mut self, now: u64)
        requires
            old(self).wf(),
        ensures
            final(self).wf(),
            final(self).model() == model_render_frame(old(self).model(), now),
    {
        let ghost m3 = self.model();
        let start = self.bounds.start as usize;
        let end = self.bounds.end as usize;
        let mut region = Self::copy_region_out(&self.frame_buffer, start, end);

        self.state.current_effect.render(now, &mut region);
        if self.state.current_effect.requires_precise_colors() {
            self.filters.color_correction.apply(&mut region);
        }
        self.filters.brightness.apply(&mut region);
        assert(region@ == region_pipeline_spec(m3, now));

        Self::splice_region_back(&mut self.frame_buffer, start, end, &region);
    }

    /// Process one frame: drain the given intents, advance the operation
    /// queue, tick the filters, render the active effect into the bounded
    /// region of the frame buffer, and apply the filters to it. The finished
    /// frame is in `frame`.
    pub fn render(&mut self, now: u64, intents: &[LightChangeIntent])
        requires
            old(self).wf(),
        ensures
            final(self).wf(),
            final(self).model() == render_step_spec(old(self).model(), now, intents@),
    {
        let effects = process_pending(&mut self.stack, intents, self.state.brightness);
        self.apply_effects(&effects);
        proof {
            assert(self.model() == model_process_intents(old(self).model(), intents@));
        }
        let ghost m1 = self.model();

        self.process_operations(now);
        let ghost m2 = self.model();

        self.filters.tick(now);
        proof {
            assert(self.model() == model_tick_filters(m2, now));
        }

        self.render_frame_stage(now);
    }
}

/// Determinism: renderers whose observable states agree and which are fed
/// the same time and the same intent batch step to the same state, frame
/// buffer included.
pub proof fn lemma_render_deterministic(
    m1: RendererModel,
    m2: RendererModel,
    now: u64,
    intents: Seq<LightChangeIntent>,
)
    requires
        m1 == m2,
    ensures
        render_step_spec(m1, now, intents) == render_step_spec(m2, now, intents),
        render_step_spec(m1, now, intents).frame == render_step_spec(m2, now, intents).frame,
{
}

} // verus!
