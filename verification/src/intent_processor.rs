//! Conversion of user intents into primitive operations and same-frame side
//! effects.
//!
//! State intents push operations onto the queue (a full queue drops them
//! silently; intent producers are best-effort); bounds, color-correction and
//! brightness-range intents are recorded to apply synchronously in the same
//! frame.

use vstd::prelude::*;

use crate::bounds::RenderingBounds;
use crate::color::Rgb;
use crate::effect::EffectId;
use crate::filter::BrightnessRange;
use crate::operation::{Operation, OperationStack, OP_QUEUE_CAPACITY};

verus! {

/// A request to change the light's state; every field is optional.
#[derive(Clone, Copy, Debug, Default)]
pub struct LightStateIntent {
    /// Power the light on or off.
    pub power: Option<bool>,
    /// New brightness target.
    pub brightness: Option<u8>,
    /// New anchor color.
    pub color: Option<Rgb>,
    /// New active effect.
    pub effect_id: Option<EffectId>,
}

/// A user intent: a state change, or a same-frame settings change.
#[derive(Clone, Copy, Debug)]
pub enum LightChangeIntent {
    /// Change power, brightness, color or effect.
    State(LightStateIntent),
    /// Replace the rendering bounds.
    Bounds(RenderingBounds),
    /// Replace the color correction factors.
    ColorCorrection(Rgb),
    /// Replace the brightness floor and scale.
    BrightnessRange(BrightnessRange),
}

/// Settings changes recorded while draining intents, applied by the
/// renderer in the same frame.
#[derive(Clone, Copy, Debug, Default)]
pub struct IntentEffects {
    /// New bounds to apply.
    pub bounds: Option<RenderingBounds>,
    /// New color correction to apply.
    pub color_correction: Option<Rgb>,
    /// New brightness range to apply.
    pub brightness_range: Option<BrightnessRange>,
}

impl IntentEffects {
    /// An empty record.
    pub fn none() -> (e: IntentEffects)
        ensures
            e == (IntentEffects { bounds: None, color_correction: None, brightness_range: None }),
    {
        IntentEffects { bounds: None, color_correction: None, brightness_range: None }
    }

    /// Whether anything needs applying.
    pub fn has_effects(&self) -> (b: bool)
        ensures
            b == (self.bounds is Some || self.color_correction is Some || self.brightness_range
                is Some),
    {
        self.bounds.is_some() || self.color_correction.is_some() || self.brightness_range.is_some()
    }
}

/// The queue after one best-effort push: unchanged when full.
pub open spec fn push_op_spec(q: Seq<Operation>, op: Operation) -> Seq<Operation> {
    if q.len() < OP_QUEUE_CAPACITY {
        q.push(op)
    } else {
        q
    }
}

/// The queue after the atomic three-step effect swap: unchanged when fewer
/// than three slots are free.
pub open spec fn push_effect_ops_spec(q: Seq<Operation>, id: EffectId, brightness: u8) -> Seq<
    Operation,
> {
    if q.len() + 3 <= OP_QUEUE_CAPACITY {
        q + seq![
            Operation::SetBrightness(0),
            Operation::SwitchEffect(id),
            Operation::SetBrightness(brightness),
        ]
    } else {
        q
    }
}

/// The queue after one state intent: effect swap first, then brightness,
/// color, and power, each field only when present.
pub open spec fn state_intent_queue_spec(
    q: Seq<Operation>,
    intent: LightStateIntent,
    current_brightness: u8,
) -> Seq<Operation> {
    let q1 = match intent.effect_id {
        Some(id) => push_effect_ops_spec(q, id, current_brightness),
        None => q,
    };
    let q2 = match intent.brightness {
        Some(b) => push_op_spec(q1, Operation::SetBrightness(b)),
        None => q1,
    };
    let q3 = match intent.color {
        Some(c) => push_op_spec(q2, Operation::SetColor(c)),
        None => q2,
    };
    match intent.power {
        Some(p) => if p {
            push_op_spec(q3, Operation::PowerOn)
        } else {
            push_op_spec(q3, Operation::PowerOff)
        },
        None => q3,
    }
}

/// The queue after a whole sequence of intents.
pub open spec fn intents_queue_spec(
    intents: Seq<LightChangeIntent>,
    q: Seq<Operation>,
    current_brightness: u8,
) -> Seq<Operation>
    decreases intents.len(),
{
    if intents.len() == 0 {
        q
    } else {
        let q1 = match intents[0] {
            LightChangeIntent::State(si) => state_intent_queue_spec(q, si, current_brightness),
            _ => q,
        };
        intents_queue_spec(intents.drop_first(), q1, current_brightness)
    }
}

/// The recorded side effects after one intent: each settings intent
/// overwrites its own slot.
pub open spec fn intent_effects_step_spec(
    eff: IntentEffects,
    intent: LightChangeIntent,
) -> IntentEffects {
    match intent {
        LightChangeIntent::State(_) => eff,
        LightChangeIntent::Bounds(b) => IntentEffects { bounds: Some(b), ..eff },
        LightChangeIntent::ColorCorrection(c) => IntentEffects { color_correction: Some(c), ..eff },
        LightChangeIntent::BrightnessRange(r) => IntentEffects {
            brightness_range: Some(r),
            ..eff
        },
    }
}

/// The recorded side effects after a whole sequence of intents.
pub open spec fn intents_effects_spec(
    intents: Seq<LightChangeIntent>,
    eff: IntentEffects,
) -> IntentEffects
    decreases intents.len(),
{
    if intents.len() == 0 {
        eff
    } else {
        intents_effects_spec(intents.drop_first(), intent_effects_step_spec(eff, intents[0]))
    }
}

/// The queue only grows at the back while intents are processed: the old
/// queue stays as a prefix.
pub open spec fn queue_extends(q_old: Seq<Operation>, q_new: Seq<Operation>) -> bool {
    q_new.len() >= q_old.len() && q_new.subrange(0, q_old.len() as int) == q_old
}

/// A queue head consistent with its queue: an idle head means an empty
/// queue.
pub open spec fn head_coherent(stack: OperationStack) -> bool {
    stack.current_op() is None ==> stack.queue().len() == 0
}

/// How the head evolves while operations are pushed: a busy head stays, an
/// idle head picks up the first operation that arrives.
pub open spec fn head_after(
    cur_old: Option<Operation>,
    q_new: Seq<Operation>,
    cur_new: Option<Operation>,
) -> bool {
    if cur_old is Some {
        cur_new == cur_old
    } else if q_new.len() > 0 {
        cur_new == Some(q_new[0])
    } else {
        cur_new is None
    }
}

/// Push the operations one state intent asks for: the atomic effect swap
/// first, then brightness, color and power. Pushes that find the queue full
/// are dropped silently.
pub fn process_state_intent(
    stack: &mut OperationStack,
    intent: &LightStateIntent,
    current_brightness: u8,
)
    requires
        old(stack).wf(),
        head_coherent(*old(stack)),
    ensures
        final(stack).wf(),
        head_coherent(*final(stack)),
        final(stack).queue() == state_intent_queue_spec(
            old(stack).queue(),
            *intent,
            current_brightness,
        ),
        queue_extends(old(stack).queue(), final(stack).queue()),
        head_after(old(stack).current_op(), final(stack).queue(), final(stack).current_op()),
{
    if let Some(effect_id) = intent.effect_id {
        let _ = stack.push_effect(effect_id, current_brightness);
    }
    if let Some(brightness) = intent.brightness {
        let _ = stack.push_brightness(brightness);
    }
    if let Some(color) = intent.color {
        let _ = stack.push_color(color);
    }
    if let Some(power) = intent.power {
        if power {
            let _ = stack.push_power_on();
        } else {
            let _ = stack.push_power_off();
        }
    }
    proof {
        assert(queue_extends(old(stack).queue(), stack.queue())) by {
            assert(stack.queue().subrange(0, old(stack).queue().len() as int) =~= old(
                stack,
            ).queue());
        }
    }
}

/// Process a drained batch of intents in order: state intents become queued
/// operations, settings intents are recorded and returned for the renderer
/// to apply in this frame.
pub fn process_pending(
    stack: &mut OperationStack,
    intents: &[LightChangeIntent],
    current_brightness: u8,
) -> (effects: IntentEffects)
    requires
        old(stack).wf(),
        head_coherent(*old(stack)),
    ensures
        final(stack).wf(),
        head_coherent(*final(stack)),
        final(stack).queue() == intents_queue_spec(
            intents@,
            old(stack).queue(),
            current_brightness,
        ),
        queue_extends(old(stack).queue(), final(stack).queue()),
        head_after(old(stack).current_op(), final(stack).queue(), final(stack).current_op()),
        effects == intents_effects_spec(
            intents@,
            IntentEffects { bounds: None, color_correction: None, brightness_range: None },
        ),
{
    let mut effects = IntentEffects::none();
    let n = intents.len();
    let mut i: usize = 0;
    proof {
        assert(intents@.skip(0) =~= intents@);
        assert(old(stack).queue().subrange(0, old(stack).queue().len() as int) =~= old(
            stack,
        ).queue());
    }
    while i < n
        invariant
            i <= n,
            n == intents@.len(),
            stack.wf(),
            head_coherent(*stack),
            intents_queue_spec(intents@.skip(i as int), stack.queue(), current_brightness)
                == intents_queue_spec(intents@, old(stack).queue(), current_brightness),
            intents_effects_spec(intents@.skip(i as int), effects) == intents_effects_spec(
                intents@,
                IntentEffects { bounds: None, color_correction: None, brightness_range: None },
            ),
            queue_extends(old(stack).queue(), stack.queue()),
            head_after(old(stack).current_op(), stack.queue(), stack.current_op()),
        decreases n - i,
    {
        let ghost pre_queue = stack.queue();
        let ghost pre_cur = stack.current_op();
        let ghost pre_effects = effects;
        let intent = intents[i];
        match intent {
            LightChangeIntent::State(state_intent) => {
                process_state_intent(stack, &state_intent, current_brightness);
            },
            LightChangeIntent::Bounds(bounds) => {
                effects.bounds = Some(bounds);
            },
            LightChangeIntent::ColorCorrection(color_correction) => {
                effects.color_correction = Some(color_correction);
            },
            LightChangeIntent::BrightnessRange(range) => {
                effects.brightness_range = Some(range);
            },
        }
        proof {
            assert(intents@.skip(i as int).drop_first() =~= intents@.skip(i + 1));
            assert(intents@.skip(i as int)[0] == intents@[i as int]);
            assert(stack.queue() == (match intents@[i as int] {
                LightChangeIntent::State(si) => state_intent_queue_spec(
                    pre_queue,
                    si,
                    current_brightness,
                ),
                _ => pre_queue,
            }));
            assert(effects == intent_effects_step_spec(pre_effects, intents@[i as int]));
            if pre_cur is Some {
            } else if pre_queue.len() > 0 {
            }
            assert(queue_extends(old(stack).queue(), stack.queue())) by {
                assert(stack.queue().subrange(0, old(stack).queue().len() as int) =~= old(
                    stack,
                ).queue());
            }
        }
        i = i + 1;
    }
    proof {
        assert(intents@.skip(n as int).len() == 0);
    }
    effects
}

} // verus!
