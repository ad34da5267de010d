use tick::{FrameRate, FramesPerSec, Tick, TICKS_PER_SECOND};

fn all_rates() -> Vec<FrameRate> {
    vec![
        FrameRate::film(),
        FrameRate::pal(),
        FrameRate::fps_30(),
        FrameRate::fps_60(),
        FrameRate::film_ntsc(),
        FrameRate::ntsc(),
        FrameRate::ntsc_60(),
    ]
}

#[test]
fn frame_rate_rejects_zero_parts() {
    assert!(FrameRate::new(0, 1).is_none());
    assert!(FrameRate::new(30, 0).is_none());
    assert!(FrameRate::from_int(0).is_none());
    let rate = FrameRate::new(30000, 1001).unwrap();
    assert_eq!((rate.num(), rate.den()), (30000, 1001));
    assert_eq!(FrameRate::from_int(25).unwrap(), FrameRate::pal());
    assert_eq!(FrameRate::from(FramesPerSec::new(24).unwrap()), FrameRate::film());
}

#[test]
fn named_rates_hold_their_fractions() {
    let parts: Vec<(u32, u32)> = all_rates().iter().map(|r| (r.num(), r.den())).collect();
    assert_eq!(
        parts,
        vec![(24, 1), (25, 1), (30, 1), (60, 1), (24000, 1001), (30000, 1001), (60000, 1001)]
    );
}

#[test]
fn nominal_rate_is_the_ceiling() {
    assert_eq!(FrameRate::film().nominal_fps(), 24);
    assert_eq!(FrameRate::film_ntsc().nominal_fps(), 24);
    assert_eq!(FrameRate::ntsc().nominal_fps(), 30);
    assert_eq!(FrameRate::ntsc_60().nominal_fps(), 60);
    assert_eq!(FrameRate::new(1, 3).unwrap().nominal_fps(), 1);
    assert_eq!(FrameRate::new(u32::MAX, 1).unwrap().nominal_fps(), u32::MAX as i64);
}

#[test]
fn ntsc_timecode_round_trips() {
    let rate = FrameRate::ntsc();
    let tick = Tick::from_timecode(1, 30, 45, 15, rate);
    assert_eq!(tick.raw(), 19_643_027_203);
    assert_eq!(tick.to_timecode(rate), (1, 30, 45, 15));
}

#[test]
fn timecode_round_trips_at_every_named_rate() {
    for rate in all_rates() {
        let nominal = rate.nominal_fps();
        for &(h, m, s) in &[(0, 0, 0), (0, 0, 59), (0, 59, 59), (1, 30, 45), (23, 59, 59), (100, 1, 2)] {
            for f in 0..nominal {
                let tick = Tick::from_timecode(h, m, s, f, rate);
                assert_eq!(tick.to_timecode(rate), (h, m, s, f), "{:?} at {}/{}", (h, m, s, f), rate.num(), rate.den());
            }
        }
    }
}

#[test]
fn zero_timecode_is_tick_zero() {
    for rate in all_rates() {
        assert_eq!(Tick::from_timecode(0, 0, 0, 0, rate), Tick::new(0));
        assert_eq!(Tick::from_timecode(0, 0, 0, 0, rate).to_timecode(rate), (0, 0, 0, 0));
    }
}

#[test]
fn hundred_seconds_at_ntsc_is_2997_frames() {
    // 2997 frames at 30 nominal frames a second is 1:39 and 27 frames.
    let tick = Tick::new(100 * TICKS_PER_SECOND);
    assert_eq!(tick.to_timecode(FrameRate::ntsc()), (0, 1, 39, 27));
}

#[test]
fn timecode_to_ticks_exact_values() {
    assert_eq!(Tick::from_timecode(0, 0, 1, 0, FrameRate::film()).raw(), TICKS_PER_SECOND);
    assert_eq!(Tick::from_timecode(1, 0, 0, 0, FrameRate::ntsc()).raw(), 12_985_932_960);
    assert_eq!(Tick::from_timecode(0, 0, 0, 1, FrameRate::ntsc()).raw(), 120_240);
    assert_eq!(Tick::from_timecode(0, 0, 0, -1, FrameRate::film()).raw(), -150_150);
    assert_eq!(Tick::from_timecode(-1, 0, 0, 0, FrameRate::film()).raw(), -12_972_960_000);
}

#[test]
fn timecode_rounds_to_the_nearest_frame() {
    let film = FrameRate::film();
    let per_frame = TICKS_PER_SECOND / 24;
    assert_eq!(Tick::new(per_frame / 2).to_timecode(film), (0, 0, 0, 1));
    assert_eq!(Tick::new(per_frame / 2 - 1).to_timecode(film), (0, 0, 0, 0));
    // Before the origin every part takes the sign of the time.
    assert_eq!(Tick::new(-TICKS_PER_SECOND).to_timecode(film), (0, 0, 0, -23));
    assert_eq!(Tick::new(-1).to_timecode(film), (0, 0, 0, 0));
    assert_eq!(Tick::new(-3601 * TICKS_PER_SECOND).to_timecode(FrameRate::fps_30()), (-1, 0, 0, -29));
}

#[test]
fn extreme_ticks_give_a_timecode() {
    let fast = FrameRate::new(u32::MAX, 1).unwrap();
    let (h, m, s, f) = Tick::new(i64::MAX).to_timecode(fast);
    assert!(h > 0 && (0..60).contains(&m) && (0..60).contains(&s) && f >= 0);
    let (h, _, _, _) = Tick::new(i64::MIN).to_timecode(FrameRate::new(1, u32::MAX).unwrap());
    assert_eq!(h, 0);
}
