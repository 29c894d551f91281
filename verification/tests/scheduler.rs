use myrtio_light_composer::color::Rgb;
use myrtio_light_composer::filter::{BrightnessFilterConfig, FilterProcessorConfig};
use myrtio_light_composer::{
    EffectId, FrameScheduler, LightEngineConfig, OutputDriver, Renderer, RenderingBounds,
    TransitionTimings,
};

struct RecordingDriver {
    frames_written: usize,
    last_frame_len: usize,
}

impl OutputDriver for RecordingDriver {
    fn write(&mut self, colors: &Vec<Rgb>) {
        self.frames_written += 1;
        self.last_frame_len = colors.len();
    }
}

fn renderer() -> Renderer {
    let config = LightEngineConfig {
        effect: EffectId::RainbowShort,
        bounds: RenderingBounds { start: 0, end: 30 },
        filters: FilterProcessorConfig {
            brightness: BrightnessFilterConfig {
                min_brightness: 0,
                scale: 255,
            },
            color_correction: Rgb::new(255, 255, 255),
        },
        timings: TransitionTimings {
            fade_out: 0,
            fade_in: 0,
            color_change: 0,
            brightness: 0,
        },
        brightness: 255,
        color: Rgb::new(0, 0, 0),
    };
    Renderer::new(&config, 30)
}

#[test]
fn test_scheduler_paces_frames() {
    let driver = RecordingDriver {
        frames_written: 0,
        last_frame_len: 0,
    };
    let mut scheduler = FrameScheduler::with_frame_duration(renderer(), driver, 11);
    let result = scheduler.tick(0, &[]);
    assert_eq!(result.next_deadline, 11);
    assert_eq!(result.sleep_duration, 11);
    let result = scheduler.tick(11, &[]);
    assert_eq!(result.next_deadline, 22);
    assert_eq!(result.sleep_duration, 11);
    assert_eq!(scheduler.output.frames_written, 2);
    // The driver always receives the full frame buffer.
    assert_eq!(scheduler.output.last_frame_len, 30);
}

#[test]
fn test_scheduler_drift_correction() {
    let driver = RecordingDriver {
        frames_written: 0,
        last_frame_len: 0,
    };
    let mut scheduler = FrameScheduler::with_frame_duration(renderer(), driver, 11);
    // Jump ten frame durations ahead in one call: the backlog is skipped,
    // pacing restarts from now, and the renderer runs exactly once.
    let result = scheduler.tick(110, &[]);
    assert_eq!(scheduler.output.frames_written, 1);
    assert_eq!(result.next_deadline, 110 + 11);
    assert_eq!(result.sleep_duration, 11);
}

#[test]
fn test_scheduler_late_but_within_drift() {
    let driver = RecordingDriver {
        frames_written: 0,
        last_frame_len: 0,
    };
    let mut scheduler = FrameScheduler::with_frame_duration(renderer(), driver, 11);
    scheduler.tick(0, &[]);
    // One frame late, but within the two-frame drift window: the deadline
    // advances normally and the sleep shrinks.
    let result = scheduler.tick(21, &[]);
    assert_eq!(result.next_deadline, 22);
    assert_eq!(result.sleep_duration, 1);
}
