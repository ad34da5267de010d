//! Conversion between ticks and frame numbers.
use vstd::prelude::*;
use crate::arith::{lemma_trunc_div_exact, trunc_div};
use crate::rate::FramesPerSec;
use crate::tick::{Tick, TICKS_PER_SECOND};

verus! {

/// Conversion to and from frame numbers at a given frame rate.
pub trait FrameRateConversion<T>: Sized {
    /// The number of the frame that this time falls in.
    fn to_frame(self, frame_rate: T) -> i64;

    /// The time at which frame number `frame` starts.
    fn from_frame(frame: i64, frame_rate: T) -> Self;
}

/// The frame that tick `raw` falls in at `fps` frames per second: the exact
/// quotient `raw * fps / TICKS_PER_SECOND`, rounded toward zero.
pub open spec fn frame_of(raw: int, fps: int) -> int {
    trunc_div(raw * fps, TICKS_PER_SECOND as int)
}

/// The tick at which frame `frame` starts at `fps` frames per second:
/// `frame * TICKS_PER_SECOND / fps`, rounded toward zero.
pub open spec fn ticks_of_frame(frame: int, fps: int) -> int {
    trunc_div(frame * TICKS_PER_SECOND, fps)
}

impl FrameRateConversion<FramesPerSec> for Tick {
    /// The product is formed in 128 bits, so it cannot overflow; a frame
    /// number beyond the range of `i64` (only at rates above
    /// `TICKS_PER_SECOND`) is cut down to its low 64 bits.
    fn to_frame(self, frame_rate: FramesPerSec) -> (r: i64)
        ensures
            r == frame_of(self.0 as int, frame_rate.fps() as int) as i64,
    {
        let fps = frame_rate.get();
        let raw = self.0 as i128;
        assert(-0x8000_0000_0000_0000 * 0x1_0000_0000 <= raw * fps <= 0x8000_0000_0000_0000
            * 0x1_0000_0000) by (nonlinear_arith)
            requires
                -0x8000_0000_0000_0000 <= raw < 0x8000_0000_0000_0000,
                0 < fps < 0x1_0000_0000,
        ;
        let q: i128 = raw * (fps as i128) / (TICKS_PER_SECOND as i128);
        #[verifier::truncate]
        (q as i64)
    }

    /// The product is formed in 128 bits, so it cannot overflow; a tick count
    /// beyond the range of `i64` is cut down to its low 64 bits.
    fn from_frame(frame: i64, frame_rate: FramesPerSec) -> (r: Tick)
        ensures
            r.0 == ticks_of_frame(frame as int, frame_rate.fps() as int) as i64,
    {
        let fps = frame_rate.get();
        let f = frame as i128;
        assert(-0x8000_0000_0000_0000 * 0x40_0000 <= f * TICKS_PER_SECOND <= 0x8000_0000_0000_0000
            * 0x40_0000) by (nonlinear_arith)
            requires
                -0x8000_0000_0000_0000 <= f < 0x8000_0000_0000_0000,
        ;
        let q: i128 = f * (TICKS_PER_SECOND as i128) / (fps as i128);
        Tick(
            #[verifier::truncate]
            (q as i64),
        )
    }
}

/// At a rate that divides `TICKS_PER_SECOND`, frame `frame` starts at exactly
/// `frame * (TICKS_PER_SECOND / fps)` ticks.
pub proof fn lemma_ticks_of_frame_exact(frame: int, fps: int)
    requires
        fps > 0,
        (TICKS_PER_SECOND as int) % fps == 0,
    ensures
        ticks_of_frame(frame, fps) == frame * ((TICKS_PER_SECOND as int) / fps),
        frame_of(frame * ((TICKS_PER_SECOND as int) / fps), fps) == frame,
{
    let k = (TICKS_PER_SECOND as int) / fps;
    vstd::arithmetic::div_mod::lemma_fundamental_div_mod(TICKS_PER_SECOND as int, fps);
    assert(frame * TICKS_PER_SECOND == (frame * k) * fps) by (nonlinear_arith)
        requires
            TICKS_PER_SECOND == fps * k,
    ;
    lemma_trunc_div_exact(frame * k, fps);
    assert((frame * k) * fps == frame * TICKS_PER_SECOND) by (nonlinear_arith)
        requires
            TICKS_PER_SECOND == fps * k,
    ;
    lemma_trunc_div_exact(frame, TICKS_PER_SECOND as int);
}

/// Round trip through ticks: at a rate that divides `TICKS_PER_SECOND`,
/// converting frame number `frame` to ticks and back gives `frame` again,
/// wherever its tick count fits in an `i64`.
pub proof fn lemma_frame_round_trip(frame: i64, frame_rate: FramesPerSec)
    requires
        frame_rate.fps() > 0,
        (TICKS_PER_SECOND as int) % (frame_rate.fps() as int) == 0,
        i64::MIN <= ticks_of_frame(frame as int, frame_rate.fps() as int) <= i64::MAX,
    ensures
        frame_of(
            ticks_of_frame(frame as int, frame_rate.fps() as int) as i64 as int,
            frame_rate.fps() as int,
        ) == frame,
{
    let fps = frame_rate.fps() as int;
    lemma_ticks_of_frame_exact(frame as int, fps);
}

/// Round trip through frame numbers: at a rate that divides
/// `TICKS_PER_SECOND`, a tick count that starts a frame is converted to that
/// frame's number and back without change.
pub proof fn lemma_frame_aligned_round_trip(frame: i64, frame_rate: FramesPerSec)
    requires
        frame_rate.fps() > 0,
        (TICKS_PER_SECOND as int) % (frame_rate.fps() as int) == 0,
        i64::MIN <= ticks_of_frame(frame as int, frame_rate.fps() as int) <= i64::MAX,
    ensures
        ({
            let t = ticks_of_frame(frame as int, frame_rate.fps() as int) as i64;
            ticks_of_frame(frame_of(t as int, frame_rate.fps() as int) as i64 as int, frame_rate.fps() as int)
                == t
        }),
{
    let fps = frame_rate.fps() as int;
    lemma_ticks_of_frame_exact(frame as int, fps);
}

} // verus!
