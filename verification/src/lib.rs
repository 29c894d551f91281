//! A deterministic per-frame renderer for addressable LED strips.

pub mod aurora;
pub mod bounds;
pub mod channel;
pub mod color;
pub mod effect;
pub mod filter;
pub mod flow;
pub mod frame_scheduler;
pub mod gradient;
pub mod intent_processor;
pub mod math8;
pub mod noise;
pub mod operation;
pub mod rainbow;
pub mod renderer;
pub mod static_color;
pub mod transition;
pub mod velvet_analog;

pub use aurora::AuroraEffect;
pub use bounds::{center_of, RenderingBounds};
pub use channel::{Channel, TryReceiveError, TrySendError};
pub use color::{blend_colors, hsv2rgb, mirror_half, rgb2hsv, rgb_from_u32, Hsv, Rgb};
pub use effect::{EffectId, EffectSlot};
pub use filter::{BrightnessFilter, BrightnessFilterConfig, BrightnessRange, ColorCorrection, FilterProcessor, FilterProcessorConfig};
pub use flow::{FlowEffect, FlowVariant};
pub use frame_scheduler::{FrameResult, FrameScheduler, OutputDriver};
pub use gradient::{fill_gradient_fp, fill_gradient_three_fp, GradientDirection};
pub use intent_processor::{process_pending, process_state_intent, IntentEffects, LightChangeIntent, LightStateIntent};
pub use math8::{blend8, ease_in_out_quad, progress8, scale8};
pub use operation::{Operation, OperationStack};
pub use rainbow::{RainbowEffect, RainbowVariant};
pub use renderer::{LightEngineConfig, LightState, Renderer, TransitionTimings};
pub use static_color::StaticColorEffect;
pub use transition::{Blendable, ValueTransition};
pub use velvet_analog::VelvetAnalogEffect;
