use myrtio_light_composer::color::Rgb;
use myrtio_light_composer::filter::{BrightnessFilterConfig, FilterProcessorConfig};
use myrtio_light_composer::{
    EffectId, EffectSlot, LightChangeIntent, LightEngineConfig, LightStateIntent, Renderer,
    RenderingBounds, TransitionTimings,
};

const LED_COUNT: usize = 60;

fn config(effect: EffectId, brightness: u8, transition_ms: u64) -> LightEngineConfig {
    LightEngineConfig {
        effect,
        bounds: RenderingBounds { start: 0, end: 60 },
        filters: FilterProcessorConfig {
            brightness: BrightnessFilterConfig {
                min_brightness: 0,
                scale: 255,
            },
            color_correction: Rgb::new(255, 255, 255),
        },
        timings: TransitionTimings {
            fade_out: transition_ms,
            fade_in: transition_ms,
            color_change: transition_ms,
            brightness: transition_ms,
        },
        brightness,
        color: Rgb::new(0, 0, 0),
    }
}

fn state_intent(
    power: Option<bool>,
    brightness: Option<u8>,
    color: Option<Rgb>,
    effect_id: Option<EffectId>,
) -> LightChangeIntent {
    LightChangeIntent::State(LightStateIntent {
        power,
        brightness,
        color,
        effect_id,
    })
}

#[test]
fn test_solid_color_fade_in() {
    let mut renderer = Renderer::new(&config(EffectId::Static, 0, 500), LED_COUNT);
    let intents = [state_intent(
        Some(true),
        Some(200),
        Some(Rgb::new(255, 0, 0)),
        Some(EffectId::Static),
    )];
    renderer.render(0, &intents);
    let mut last_r = renderer.frame()[0].r;
    let mut now = 0u64;
    // Walk well past all queued transitions.
    for _ in 0..200 {
        now += 50;
        renderer.render(now, &[]);
        let r = renderer.frame()[0].r;
        assert!(r >= last_r, "pixel red fell from {last_r} to {r} at {now}");
        assert_eq!(renderer.frame()[0].g, 0);
        assert_eq!(renderer.frame()[0].b, 0);
        last_r = r;
    }
    // Final value: pure red under a 200/255 brightness envelope.
    for led in renderer.frame().iter() {
        assert_eq!(*led, Rgb::new(200, 0, 0));
    }
}

#[test]
fn test_rainbow_periodicity_through_pipeline() {
    let mut renderer = Renderer::new(&config(EffectId::RainbowShort, 255, 0), LED_COUNT);
    // Power on with instantaneous transitions so the envelope sits at 255.
    renderer.render(0, &[state_intent(Some(true), None, None, None)]);
    renderer.render(0, &[]);
    let at_zero = renderer.frame().clone();
    renderer.render(12_000, &[]);
    let at_cycle = renderer.frame().clone();
    renderer.render(6_000, &[]);
    let at_half = renderer.frame().clone();
    assert_eq!(at_zero, at_cycle);
    assert_ne!(at_zero, at_half);
}

#[test]
fn test_effect_switch_atomicity() {
    let mut renderer = Renderer::new(&config(EffectId::Static, 128, 10_000), LED_COUNT);
    // Fill the queue with slow brightness changes; the first starts its
    // long transition, the rest stay queued.
    let mut fillers = Vec::new();
    for i in 0..12u8 {
        fillers.push(state_intent(None, Some(i), None, None));
    }
    renderer.render(0, &fillers);
    // Fewer than three slots are free: the swap must be rejected whole.
    renderer.render(1, &[state_intent(None, None, None, Some(EffectId::VelvetAnalog))]);
    assert!(matches!(
        renderer.state.current_effect,
        EffectSlot::Static(_)
    ));
    // The renderer still produces the static effect's output.
    renderer.render(2, &[]);
    assert!(matches!(
        renderer.state.current_effect,
        EffectSlot::Static(_)
    ));
}

#[test]
fn test_renderers_are_deterministic() {
    let cfg = config(EffectId::VelvetAnalog, 200, 300);
    let mut a = Renderer::new(&cfg, LED_COUNT);
    let mut b = Renderer::new(&cfg, LED_COUNT);
    let script: Vec<(u64, Vec<LightChangeIntent>)> = vec![
        (0, vec![state_intent(Some(true), None, Some(Rgb::new(120, 40, 200)), None)]),
        (40, vec![]),
        (80, vec![state_intent(None, Some(90), None, None)]),
        (120, vec![]),
        (500, vec![state_intent(None, None, None, Some(EffectId::Aurora))]),
        (900, vec![]),
        (2_000, vec![]),
    ];
    for (now, intents) in &script {
        a.render(*now, intents);
        b.render(*now, intents);
        assert_eq!(a.frame(), b.frame());
    }
}

#[test]
fn test_bounds_intent_limits_painted_region() {
    let mut renderer = Renderer::new(&config(EffectId::Static, 255, 0), LED_COUNT);
    renderer.render(
        0,
        &[
            LightChangeIntent::Bounds(RenderingBounds { start: 10, end: 20 }),
            state_intent(Some(true), None, Some(Rgb::new(50, 60, 70)), None),
        ],
    );
    // Let the color commit and render once more.
    renderer.render(1, &[]);
    renderer.render(2, &[]);
    let frame = renderer.frame();
    for i in 0..LED_COUNT {
        if i >= 10 && i < 20 {
            assert_eq!(frame[i], Rgb::new(50, 60, 70));
        } else {
            assert_eq!(frame[i], Rgb::new(0, 0, 0));
        }
    }
}

#[test]
fn test_color_correction_intent_scales_channels() {
    let mut renderer = Renderer::new(&config(EffectId::Static, 255, 0), LED_COUNT);
    renderer.render(
        0,
        &[
            LightChangeIntent::ColorCorrection(Rgb::new(255, 128, 0)),
            state_intent(Some(true), None, Some(Rgb::new(255, 255, 255)), None),
        ],
    );
    renderer.render(1, &[]);
    renderer.render(2, &[]);
    let led = renderer.frame()[0];
    assert_eq!(led, Rgb::new(255, 128, 0));
}

#[test]
fn test_power_off_preserves_brightness_target() {
    let mut renderer = Renderer::new(&config(EffectId::Static, 0, 0), LED_COUNT);
    renderer.render(
        0,
        &[state_intent(Some(true), Some(180), Some(Rgb::new(255, 255, 255)), None)],
    );
    for now in 1..6u64 {
        renderer.render(now, &[]);
    }
    assert_eq!(renderer.frame()[0], Rgb::new(180, 180, 180));
    // Power off fades to black but keeps the stored target.
    renderer.render(10, &[state_intent(Some(false), None, None, None)]);
    for now in 11..16u64 {
        renderer.render(now, &[]);
    }
    assert_eq!(renderer.frame()[0], Rgb::new(0, 0, 0));
    assert_eq!(renderer.state.brightness, 180);
    // Power back on restores the stored target.
    renderer.render(20, &[state_intent(Some(true), None, None, None)]);
    for now in 21..26u64 {
        renderer.render(now, &[]);
    }
    assert_eq!(renderer.frame()[0], Rgb::new(180, 180, 180));
}
