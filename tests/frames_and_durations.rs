use std::time::Duration;
use tick::{FrameRateConversion, FramesPerSec, Tick, TICKS_PER_SECOND};

/// Ticks in `secs` seconds, truncated, as the float constructor computes them.
fn from_secs(secs: f64) -> Tick {
    Tick::new((secs * TICKS_PER_SECOND as f64) as i64)
}

#[test]
fn test_from_duration() {
    let duration = Duration::from_secs_f64(2.5);
    let tick = Tick::from(duration);

    // 2.5 seconds * 3,603,600 ticks/second = 9,009,000 ticks.
    assert_eq!(tick.0, (2.5 * TICKS_PER_SECOND as f64) as i64);

    // Verify round-trip conversion.
    let back_to_duration = Duration::from(tick);
    assert!((back_to_duration.as_secs_f64() - 2.5).abs() < 1e-10);
}

#[test]
fn test_duration_zero() {
    let duration = Duration::ZERO;
    let tick = Tick::from(duration);
    assert_eq!(tick.0, 0);
}

#[test]
fn test_subsecond_precision() {
    // 1.5 seconds.
    let duration = Duration::new(1, 500_000_000);
    let tick = Tick::from(duration);

    // 1.5 seconds * 3,603,600 ticks/second = 5,405,400 ticks.
    assert_eq!(tick.0, (1.5 * TICKS_PER_SECOND as f64) as i64);
}

#[test]
fn test_frame_conversions() {
    let fps_60 = FramesPerSec::new(60).unwrap();

    // 1 second should be 60 frames.
    let one_second_ticks = from_secs(1.0);
    assert_eq!(one_second_ticks.to_frame(fps_60), 60);

    // 60 frames should be 1 second worth of ticks.
    let sixty_frames = Tick::from_frame(60, fps_60);
    assert_eq!(sixty_frames.0, TICKS_PER_SECOND);

    // Round trip.
    assert_eq!(sixty_frames.to_frame(fps_60), 60);
}

#[test]
fn test_frame_conversions_various_rates() {
    let test_cases = [(24, 1.0, 24), (30, 2.0, 60), (120, 0.5, 60), (25, 1.0, 25)];

    for (fps, seconds, expected_frames) in test_cases {
        let frame_rate = FramesPerSec::new(fps).unwrap();
        let ticks = from_secs(seconds);
        let frames = ticks.to_frame(frame_rate);

        assert_eq!(
            frames, expected_frames,
            "Failed for {}fps, {}s: expected {}, got {}",
            fps, seconds, expected_frames, frames
        );

        let back_to_ticks = Tick::from_frame(frames, frame_rate);
        assert_eq!(back_to_ticks, ticks, "Round-trip failed for {}fps, frame {}", fps, frames);
    }
}

#[test]
fn test_frame_edge_cases() {
    let fps_60 = FramesPerSec::new(60).unwrap();

    // Zero.
    let zero_ticks = Tick::new(0);
    assert_eq!(zero_ticks.to_frame(fps_60), 0);
    assert_eq!(Tick::from_frame(0, fps_60), zero_ticks);

    // Minus one second.
    let negative_ticks = Tick::new(-TICKS_PER_SECOND);
    assert_eq!(negative_ticks.to_frame(fps_60), -60);
    assert_eq!(Tick::from_frame(-60, fps_60), negative_ticks);
}

#[test]
fn test_high_precision_frame_rates() {
    // 29.97 fps scaled by 100 to the whole rate 2997.
    let fps_2997 = FramesPerSec::new(2997).unwrap();

    let hundred_seconds = from_secs(100.0);
    let frames = hundred_seconds.to_frame(fps_2997);
    assert_eq!(frames, 299700);

    let back_to_ticks = Tick::from_frame(frames, fps_2997);
    assert_eq!(back_to_ticks, hundred_seconds);
}

#[test]
fn frames_per_sec_rejects_zero() {
    assert!(FramesPerSec::new(0).is_none());
    assert_eq!(FramesPerSec::new(24).unwrap().get(), 24);
}

#[test]
fn one_second_is_120_frames_at_120() {
    let fps = FramesPerSec::new(120).unwrap();
    assert_eq!(Tick::new(TICKS_PER_SECOND).to_frame(fps), 120);
    assert_eq!(Tick::from_frame(60, FramesPerSec::new(60).unwrap()).raw(), TICKS_PER_SECOND);
}

#[test]
fn frame_numbers_round_trip_at_common_rates() {
    for fps in [24u32, 25, 30, 60, 120] {
        let rate = FramesPerSec::new(fps).unwrap();
        for n in -2000i64..2000 {
            assert_eq!(Tick::from_frame(n, rate).to_frame(rate), n, "{} fps, frame {}", fps, n);
        }
        let far = 1_000_000_000_000i64;
        assert_eq!(Tick::from_frame(far, rate).to_frame(rate), far);
    }
}

#[test]
fn frame_number_rounds_toward_zero() {
    let fps = FramesPerSec::new(24).unwrap();
    // One tick short of a frame boundary, on either side of zero.
    let per_frame = TICKS_PER_SECOND / 24;
    assert_eq!(Tick::new(per_frame - 1).to_frame(fps), 0);
    assert_eq!(Tick::new(-(per_frame - 1)).to_frame(fps), 0);
    assert_eq!(Tick::new(-per_frame - 1).to_frame(fps), -1);
    // A rate that does not divide the tick rate.
    let fps_7 = FramesPerSec::new(7).unwrap();
    assert_eq!(Tick::from_frame(1, fps_7).raw(), 514_800);
    assert_eq!(Tick::from_frame(-1, fps_7).raw(), -514_800);
    let too_fast = FramesPerSec::new(7_000_000).unwrap();
    assert_eq!(Tick::from_frame(1, too_fast).raw(), 0);
}

#[test]
fn duration_parts_convert_exactly() {
    assert_eq!(Tick::from_duration_parts(2, 500_000_000).raw(), 9_009_000);
    // A third of a nanosecond's worth is dropped: 1 ns is 0.0036036 ticks.
    assert_eq!(Tick::from_duration_parts(0, 1).raw(), 0);
    assert_eq!(Tick::from_duration_parts(0, 278).raw(), 1);
    assert_eq!(Tick::from_duration_parts(u64::MAX, 999_999_999).raw(), i64::MAX);
    assert_eq!(Tick::new(9_009_000).to_duration_parts(), (2, 500_000_000));
    assert_eq!(Tick::new(1).to_duration_parts(), (0, 277));
    assert_eq!(Tick::new(-1).to_duration_parts(), (0, 0));
}

#[test]
fn durations_convert_through_parts() {
    let tick = Tick::from(Duration::new(3, 250_000_000));
    assert_eq!(tick.raw(), 3 * TICKS_PER_SECOND + TICKS_PER_SECOND / 4);
    assert_eq!(Duration::from(tick), Duration::new(3, 250_000_000));
    assert_eq!(Duration::from(Tick::new(-5)), Duration::ZERO);
}
