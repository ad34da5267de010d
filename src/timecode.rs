//! Conversion between ticks and `hours:minutes:seconds:frames` timecode.
//!
//! Timecode counts frames at the nominal rate, the exact rate rounded up, as
//! broadcast timecode does: at NTSC's 29.97 frames per second the frame field
//! runs from 0 to 29.
use vstd::prelude::*;
use crate::arith::{lemma_trunc_div_bound, lemma_trunc_rem, trunc_div, trunc_rem};
use crate::rate::FrameRate;
use crate::tick::{Tick, TICKS_PER_SECOND};

verus! {

/// The number of whole frames at the exact rate `num / den` by tick `raw`:
/// `raw * num / (TICKS_PER_SECOND * den)`, with half the divisor added before
/// the division rounds toward zero.
pub open spec fn elapsed_frames(raw: int, num: int, den: int) -> int {
    let divisor = TICKS_PER_SECOND * den;
    trunc_div(raw * num + divisor / 2, divisor)
}

/// A frame count shown as `(hours, minutes, seconds, frames)`, with `nominal`
/// frames to the second.
pub open spec fn split_frames(total: int, nominal: int) -> (int, int, int, int) {
    let secs = trunc_div(total, nominal);
    (trunc_div(secs, 3600), trunc_rem(trunc_div(secs, 60), 60), trunc_rem(secs, 60), trunc_rem(total, nominal))
}

/// The frame count that timecode `hours:minutes:seconds:frames` stands for,
/// with `nominal` frames to the second.
pub open spec fn timecode_frames(hours: int, minutes: int, seconds: int, frames: int, nominal: int) -> int {
    hours * 3600 * nominal + minutes * 60 * nominal + seconds * nominal + frames
}

/// The tick at which frame `total` starts at the exact rate `num / den`:
/// `total * TICKS_PER_SECOND * den / num`, rounded toward zero.
pub open spec fn ticks_of_frames(total: int, num: int, den: int) -> int {
    trunc_div(total * TICKS_PER_SECOND * den, num)
}

/// The tick count that timecode `hours:minutes:seconds:frames` stands for at `rate`.
pub open spec fn timecode_ticks(hours: int, minutes: int, seconds: int, frames: int, rate: FrameRate) -> int {
    ticks_of_frames(
        timecode_frames(hours, minutes, seconds, frames, rate.nominal()),
        rate.numerator() as int,
        rate.denominator() as int,
    )
}

/// The timecode `(hours, minutes, seconds, frames)` shown for tick `raw` at `rate`.
pub open spec fn tick_timecode(raw: int, rate: FrameRate) -> (int, int, int, int) {
    split_frames(
        elapsed_frames(raw, rate.numerator() as int, rate.denominator() as int),
        rate.nominal(),
    )
}

impl Tick {
    /// The timecode of this time at `rate`: the frames elapsed at the exact
    /// rate, `raw * num + divisor / 2` divided by `divisor = TICKS_PER_SECOND
    /// * den` with the quotient rounded toward zero, then split at the nominal
    /// rate into hours, minutes, seconds and frames. Every part takes the sign
    /// of the time.
    ///
    /// For a time at or after the origin this rounds to the nearest frame,
    /// halves up. Before the origin it does not: the half-divisor bias pulls
    /// the count toward zero, so one second before the origin at 24 frames
    /// per second is frame -23, not -24.
    pub fn to_timecode(&self, rate: FrameRate) -> (r: (i64, i64, i64, i64))
        ensures
            (r.0 as int, r.1 as int, r.2 as int, r.3 as int) == tick_timecode(self.0 as int, rate),
    {
        let num = rate.num() as i128;
        let den = rate.den() as i128;
        let raw = self.0 as i128;
        let divisor: i128 = (TICKS_PER_SECOND as i128) * den;
        assert(-0x8000_0000_0000_0000 * 0xffff_ffff <= raw * num <= 0x7fff_ffff_ffff_ffff * 0xffff_ffff)
            by (nonlinear_arith)
            requires
                -0x8000_0000_0000_0000 <= raw <= 0x7fff_ffff_ffff_ffff,
                0 < num <= 0xffff_ffff,
        ;
        assert(TICKS_PER_SECOND <= divisor < 0x40_0000 * 0x1_0000_0000) by (nonlinear_arith)
            requires
                divisor == TICKS_PER_SECOND * den,
                0 < den < 0x1_0000_0000,
        ;
        let x: i128 = raw * num + divisor / 2;
        let total: i128 = x / divisor;
        let ghost bound: int = 0x8000_0000_0000_0000_0000_0000int / (TICKS_PER_SECOND as int);
        proof {
            let big: int = 0x8000_0000_0000_0000_0000_0000int;
            lemma_trunc_div_bound(x as int, divisor as int, big);
            vstd::arithmetic::div_mod::lemma_div_is_ordered_by_denominator(big, TICKS_PER_SECOND as int, divisor as int);
        }
        let nominal = rate.nominal_fps() as i128;
        let secs = total / nominal;
        proof {
            lemma_trunc_div_bound(total as int, nominal as int, bound);
            vstd::arithmetic::div_mod::lemma_div_is_ordered_by_denominator(bound, 1, nominal as int);
            lemma_trunc_div_bound(secs as int, 3600, bound);
            lemma_trunc_div_bound(secs as int, 60, bound);
            lemma_trunc_rem(trunc_div(secs as int, 60), 60);
            lemma_trunc_rem(secs as int, 60);
            lemma_trunc_rem(total as int, nominal as int);
        }
        let hours = secs / 3600;
        let minutes = (secs / 60) % 60;
        let seconds = secs % 60;
        let frames = total % nominal;
        (hours as i64, minutes as i64, seconds as i64, frames as i64)
    }

    /// The time at which timecode `hours:minutes:seconds:frames` starts at
    /// `rate`: the frame count at the nominal rate, converted to ticks at the
    /// exact rate and rounded toward zero. The frame count must fit in an
    /// `i64`; a tick count beyond that range is cut down to its low 64 bits.
    pub fn from_timecode(hours: i64, minutes: i64, seconds: i64, frames: i64, rate: FrameRate) -> (r: Tick)
        requires
            i64::MIN <= timecode_frames(hours as int, minutes as int, seconds as int, frames as int, rate.nominal())
                <= i64::MAX,
        ensures
            r.0 == timecode_ticks(hours as int, minutes as int, seconds as int, frames as int, rate) as i64,
    {
        let num = rate.num() as i128;
        let den = rate.den() as i128;
        let nominal = rate.nominal_fps() as i128;
        let per_hour = nominal * 3600;
        let per_minute = nominal * 60;
        let h = hours as i128;
        let m = minutes as i128;
        let s = seconds as i128;
        assert(-0x8000_0000_0000_0000 * 0x1000 * 0x1_0000_0000 <= h * per_hour <= 0x8000_0000_0000_0000
            * 0x1000 * 0x1_0000_0000) by (nonlinear_arith)
            requires
                -0x8000_0000_0000_0000 <= h < 0x8000_0000_0000_0000,
                0 < per_hour < 0x1000 * 0x1_0000_0000,
        ;
        assert(-0x8000_0000_0000_0000 * 0x1000 * 0x1_0000_0000 <= m * per_minute <= 0x8000_0000_0000_0000
            * 0x1000 * 0x1_0000_0000) by (nonlinear_arith)
            requires
                -0x8000_0000_0000_0000 <= m < 0x8000_0000_0000_0000,
                0 < per_minute < 0x1000 * 0x1_0000_0000,
        ;
        assert(-0x8000_0000_0000_0000 * 0x1_0000_0000 <= s * nominal <= 0x8000_0000_0000_0000
            * 0x1_0000_0000) by (nonlinear_arith)
            requires
                -0x8000_0000_0000_0000 <= s < 0x8000_0000_0000_0000,
                0 < nominal < 0x1_0000_0000,
        ;
        let total: i128 = h * per_hour + m * per_minute + s * nominal + frames as i128;
        assert(total == timecode_frames(hours as int, minutes as int, seconds as int, frames as int, rate.nominal()))
            by (nonlinear_arith)
            requires
                nominal == rate.nominal(),
                total == h * per_hour + m * per_minute + s * nominal + frames,
                per_hour == nominal * 3600,
                per_minute == nominal * 60,
                h == hours,
                m == minutes,
                s == seconds,
        ;
        let scale: i128 = (TICKS_PER_SECOND as i128) * den;
        assert(0 < scale < 0x40_0000 * 0x1_0000_0000) by (nonlinear_arith)
            requires
                scale == TICKS_PER_SECOND * den,
                0 < den < 0x1_0000_0000,
        ;
        assert(-0x8000_0000_0000_0000 * 0x40_0000 * 0x1_0000_0000 <= total * scale <= 0x8000_0000_0000_0000
            * 0x40_0000 * 0x1_0000_0000) by (nonlinear_arith)
            requires
                -0x8000_0000_0000_0000 <= total <= 0x7fff_ffff_ffff_ffff,
                0 < scale < 0x40_0000 * 0x1_0000_0000,
        ;
        assert(total * scale == total * TICKS_PER_SECOND * den) by (nonlinear_arith)
            requires
                scale == TICKS_PER_SECOND * den,
        ;
        let q: i128 = total * scale / num;
        Tick(
            #[verifier::truncate]
            (q as i64),
        )
    }
}

/// Timecode survives the trip through ticks: converting a well-formed
/// timecode (non-negative hours, minutes and seconds under 60, frames under
/// the nominal rate) to ticks and back gives the same timecode, at any rate
/// of at most half `TICKS_PER_SECOND` frames per second, the NTSC rates
/// included, wherever the tick count fits in an `i64`.
pub proof fn lemma_timecode_round_trip(hours: i64, minutes: i64, seconds: i64, frames: i64, rate: FrameRate)
    requires
        rate.valid(),
        rate.numerator() <= TICKS_PER_SECOND * rate.denominator() / 2,
        0 <= hours,
        0 <= minutes < 60,
        0 <= seconds < 60,
        0 <= frames < rate.nominal(),
        timecode_frames(hours as int, minutes as int, seconds as int, frames as int, rate.nominal()) <= i64::MAX,
        timecode_ticks(hours as int, minutes as int, seconds as int, frames as int, rate) <= i64::MAX,
    ensures
        tick_timecode(timecode_ticks(hours as int, minutes as int, seconds as int, frames as int, rate) as i64 as int, rate)
            == (hours as int, minutes as int, seconds as int, frames as int),
{
    let h = hours as int;
    let m = minutes as int;
    let s = seconds as int;
    let f = frames as int;
    let n = rate.nominal();
    let num = rate.numerator() as int;
    let den = rate.denominator() as int;
    let d = TICKS_PER_SECOND * den;
    assert(n >= 1) by (nonlinear_arith)
        requires
            n == (num + den - 1) / den,
            num >= 1,
            den >= 1,
    ;
    let secs = h * 3600 + m * 60 + s;
    let total = timecode_frames(h, m, s, f, n);
    assert(total == secs * n + f && secs >= 0 && total >= 0) by (nonlinear_arith)
        requires
            total == h * 3600 * n + m * 60 * n + s * n + f,
            secs == h * 3600 + m * 60 + s,
            h >= 0,
            m >= 0,
            s >= 0,
            f >= 0,
            n >= 1,
    ;
    // From timecode to ticks: the division is exact up to a remainder under `num`.
    assert(total * TICKS_PER_SECOND * den == total * d && total * d >= 0) by (nonlinear_arith)
        requires
            d == TICKS_PER_SECOND * den,
            total >= 0,
            den >= 1,
    ;
    let t = (total * d) / num;
    vstd::arithmetic::div_mod::lemma_fundamental_div_mod(total * d, num);
    vstd::arithmetic::div_mod::lemma_div_pos_is_pos(total * d, num);
    assert(timecode_ticks(h, m, s, f, rate) == t);
    assert(t as i64 as int == t);
    // And back: adding half the divisor lands within the right frame.
    let x = t * num + d / 2;
    assert(t * num == num * t) by (nonlinear_arith);
    assert(0 <= x - total * d < d);
    vstd::arithmetic::div_mod::lemma_fundamental_div_mod_converse(x, d, total, x - total * d);
    assert(elapsed_frames(t, num, den) == total);
    // Splitting the frame count recovers each field.
    vstd::arithmetic::div_mod::lemma_fundamental_div_mod_converse(total, n, secs, f);
    vstd::arithmetic::div_mod::lemma_fundamental_div_mod_converse(secs, 3600, h, m * 60 + s);
    vstd::arithmetic::div_mod::lemma_fundamental_div_mod_converse(secs, 60, h * 60 + m, s);
    vstd::arithmetic::div_mod::lemma_fundamental_div_mod_converse(h * 60 + m, 60, h, m);
    lemma_trunc_rem(total, n);
    lemma_trunc_rem(secs, 60);
    lemma_trunc_rem(h * 60 + m, 60);
}

/// The zero timecode is tick zero at every rate, and tick zero shows as the
/// zero timecode.
pub proof fn lemma_timecode_zero(rate: FrameRate)
    requires
        rate.valid(),
    ensures
        timecode_ticks(0, 0, 0, 0, rate) == 0,
        tick_timecode(0, rate) == (0int, 0int, 0int, 0int),
{
    let n = rate.nominal();
    let num = rate.numerator() as int;
    let den = rate.denominator() as int;
    let d = TICKS_PER_SECOND * den;
    assert(n >= 1) by (nonlinear_arith)
        requires
            n == (num + den - 1) / den,
            num >= 1,
            den >= 1,
    ;
    assert(timecode_frames(0, 0, 0, 0, n) == 0);
    assert(0 * TICKS_PER_SECOND * den == 0) by (nonlinear_arith);
    vstd::arithmetic::div_mod::lemma_fundamental_div_mod_converse(0, num, 0, 0);
    assert(d >= TICKS_PER_SECOND) by (nonlinear_arith)
        requires
            d == TICKS_PER_SECOND * den,
            den >= 1,
    ;
    vstd::arithmetic::div_mod::lemma_fundamental_div_mod_converse(d / 2, d, 0, d / 2);
    vstd::arithmetic::div_mod::lemma_fundamental_div_mod_converse(0, n, 0, 0);
    lemma_trunc_rem(0, n);
}

/// The other direction holds for times on a frame boundary: a time that
/// starts the frame of a well-formed timecode (under the conditions of
/// `lemma_timecode_round_trip`) comes back unchanged from its own timecode.
pub proof fn lemma_aligned_tick_round_trip(hours: i64, minutes: i64, seconds: i64, frames: i64, rate: FrameRate)
    requires
        rate.valid(),
        rate.numerator() <= TICKS_PER_SECOND * rate.denominator() / 2,
        0 <= hours,
        0 <= minutes < 60,
        0 <= seconds < 60,
        0 <= frames < rate.nominal(),
        timecode_frames(hours as int, minutes as int, seconds as int, frames as int, rate.nominal()) <= i64::MAX,
        timecode_ticks(hours as int, minutes as int, seconds as int, frames as int, rate) <= i64::MAX,
    ensures
        ({
            let t = timecode_ticks(hours as int, minutes as int, seconds as int, frames as int, rate) as i64;
            let (h, m, s, f) = tick_timecode(t as int, rate);
            timecode_ticks(h, m, s, f, rate) as i64 == t
        }),
{
    lemma_timecode_round_trip(hours, minutes, seconds, frames, rate);
}

} // verus!
