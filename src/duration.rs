//! Conversion to and from `std::time::Duration`, through whole seconds and
//! nanoseconds.
use vstd::prelude::*;
use core::time::Duration;
use crate::tick::{Tick, TICKS_PER_SECOND};

verus! {

/// The whole seconds of a duration, as `Duration::as_secs` returns them.
pub uninterp spec fn duration_secs(d: Duration) -> u64;

/// The nanoseconds past the whole seconds of a duration, as
/// `Duration::subsec_nanos` returns them.
pub uninterp spec fn duration_nanos(d: Duration) -> u32;

/// Relies on `Duration::as_secs`: the whole seconds of a duration.
pub assume_specification[ core::time::Duration::as_secs ](d: &Duration) -> (r: u64)
    ensures
        r == duration_secs(*d),
;

/// Relies on `Duration::subsec_nanos`: the fractional part of a duration in
/// nanoseconds, always under one billion.
pub assume_specification[ core::time::Duration::subsec_nanos ](d: &Duration) -> (r: u32)
    ensures
        r == duration_nanos(*d),
        r < 1_000_000_000,
;

/// Relies on `Duration::new`: nanoseconds of a billion or more carry over into
/// the seconds, and it panics only where that carry takes the seconds past
/// `u64::MAX`.
pub assume_specification[ core::time::Duration::new ](secs: u64, nanos: u32) -> (r: Duration)
    requires
        secs + nanos / 1_000_000_000 <= u64::MAX,
    ensures
        duration_secs(r) == secs + nanos / 1_000_000_000,
        duration_nanos(r) == nanos % 1_000_000_000,
;

/// Nanoseconds in one second.
pub const NANOS_PER_SECOND: u32 = 1_000_000_000;

/// The whole ticks in `secs` seconds and `nanos` nanoseconds.
pub open spec fn ticks_in(secs: int, nanos: int) -> int {
    (secs * NANOS_PER_SECOND + nanos) * TICKS_PER_SECOND / (NANOS_PER_SECOND as int)
}

/// The whole nanoseconds in `raw` ticks.
pub open spec fn nanos_in(raw: int) -> int {
    raw * NANOS_PER_SECOND / (TICKS_PER_SECOND as int)
}

impl Tick {
    /// The whole ticks in a span of `secs` seconds and `nanos` nanoseconds,
    /// rounded down; a span too long for an `i64` of ticks (about 81,000
    /// years) gives `i64::MAX`.
    pub fn from_duration_parts(secs: u64, nanos: u32) -> (r: Tick)
        ensures
            ticks_in(secs as int, nanos as int) <= i64::MAX ==> r.0 == ticks_in(secs as int, nanos as int),
            ticks_in(secs as int, nanos as int) > i64::MAX ==> r.0 == i64::MAX,
    {
        assert(secs * NANOS_PER_SECOND <= 0xffff_ffff_ffff_ffff * 1_000_000_000) by (nonlinear_arith)
            requires
                secs <= 0xffff_ffff_ffff_ffff,
                NANOS_PER_SECOND == 1_000_000_000,
        ;
        let total_nanos: u128 = secs as u128 * (NANOS_PER_SECOND as u128) + nanos as u128;
        assert(total_nanos * TICKS_PER_SECOND <= 0x1_0000_0000_0000_0000 * 0x4000_0000 * 0x40_0000)
            by (nonlinear_arith)
            requires
                total_nanos <= 0x1_0000_0000_0000_0000 * 0x4000_0000,
        ;
        let ticks: u128 = total_nanos * (TICKS_PER_SECOND as u128) / (NANOS_PER_SECOND as u128);
        if ticks > i64::MAX as u128 {
            Tick(i64::MAX)
        } else {
            Tick(ticks as i64)
        }
    }

    /// This time as whole seconds and nanoseconds, the nanoseconds rounded
    /// down; a negative time, which no `Duration` can hold, gives zero.
    pub fn to_duration_parts(self) -> (r: (u64, u32))
        ensures
            self.0 < 0 ==> r == (0u64, 0u32),
            self.0 >= 0 ==> r.0 == nanos_in(self.0 as int) / (NANOS_PER_SECOND as int)
                && r.1 == nanos_in(self.0 as int) % (NANOS_PER_SECOND as int),
            r.1 < NANOS_PER_SECOND,
    {
        if self.0 < 0 {
            (0, 0)
        } else {
            let raw = self.0 as u128;
            assert(raw * NANOS_PER_SECOND <= 0x8000_0000_0000_0000 * 0x4000_0000) by (nonlinear_arith)
                requires
                    raw <= 0x8000_0000_0000_0000,
            ;
            let nanos: u128 = raw * (NANOS_PER_SECOND as u128) / (TICKS_PER_SECOND as u128);
            assert(nanos <= raw * NANOS_PER_SECOND) by (nonlinear_arith)
                requires
                    nanos == raw * NANOS_PER_SECOND / (TICKS_PER_SECOND as int),
            ;
            ((nanos / (NANOS_PER_SECOND as u128)) as u64, (nanos % (NANOS_PER_SECOND as u128)) as u32)
        }
    }
}

impl From<Duration> for Tick {
    /// The whole ticks in the duration (see `Tick::from_duration_parts`).
    fn from(duration: Duration) -> (r: Tick)
        ensures
            ticks_in(duration_secs(duration) as int, duration_nanos(duration) as int) <= i64::MAX ==> r.0
                == ticks_in(duration_secs(duration) as int, duration_nanos(duration) as int),
            ticks_in(duration_secs(duration) as int, duration_nanos(duration) as int) > i64::MAX ==> r.0
                == i64::MAX,
    {
        Tick::from_duration_parts(duration.as_secs(), duration.subsec_nanos())
    }
}

impl vstd::std_specs::convert::FromSpecImpl<Duration> for Tick {
    // The contract is stated on `from` itself, over `duration_secs` and
    // `duration_nanos`.
    open spec fn obeys_from_spec() -> bool {
        false
    }

    open spec fn from_spec(duration: Duration) -> Tick {
        arbitrary()
    }
}

impl From<Tick> for Duration {
    /// The duration from the origin to this time (see `Tick::to_duration_parts`).
    fn from(tick: Tick) -> (r: Duration)
        ensures
            tick.0 < 0 ==> duration_secs(r) == 0 && duration_nanos(r) == 0,
            tick.0 >= 0 ==> duration_secs(r) == nanos_in(tick.0 as int) / (NANOS_PER_SECOND as int)
                && duration_nanos(r) == nanos_in(tick.0 as int) % (NANOS_PER_SECOND as int),
    {
        let (secs, nanos) = tick.to_duration_parts();
        Duration::new(secs, nanos)
    }
}

impl vstd::std_specs::convert::FromSpecImpl<Tick> for Duration {
    // The contract is stated on `from` itself, over `duration_secs` and
    // `duration_nanos`.
    open spec fn obeys_from_spec() -> bool {
        false
    }

    open spec fn from_spec(tick: Tick) -> Duration {
        arbitrary()
    }
}

} // verus!
