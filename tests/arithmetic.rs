use tick::{Tick, TICKS_PER_SECOND};

/// Ticks in `secs` seconds, truncated, as the float constructor computes them.
fn from_secs(secs: f64) -> Tick {
    Tick::new((secs * TICKS_PER_SECOND as f64) as i64)
}

#[test]
fn test_ops() {
    let ticks = from_secs(1.0);

    // Addition.
    assert_eq!(ticks + ticks, from_secs(2.0));
    assert_eq!(ticks + from_secs(0.5), from_secs(1.5));

    // Subtraction.
    assert_eq!(ticks - ticks, from_secs(0.0));
    assert_eq!(ticks - from_secs(0.5), from_secs(0.5));
}

#[test]
fn integer_scaling_is_exact() {
    let second = Tick::new(TICKS_PER_SECOND);
    assert_eq!(second * 2i64, Tick::new(2 * TICKS_PER_SECOND));
    assert_eq!(second * -3i32, Tick::new(-3 * TICKS_PER_SECOND));
    assert_eq!(second * 7u8, Tick::new(7 * TICKS_PER_SECOND));
    assert_eq!(second * 0u32, Tick::new(0));
    assert_eq!(second / 2i16, Tick::new(TICKS_PER_SECOND / 2));
    assert_eq!(second / 4u16, Tick::new(900_900));
    assert_eq!(Tick::new(i64::MAX) * 1i8, Tick::new(i64::MAX));
}

#[test]
fn integer_division_truncates_toward_zero() {
    assert_eq!(Tick::new(7) / 2i64, Tick::new(3));
    assert_eq!(Tick::new(-7) / 2i64, Tick::new(-3));
    assert_eq!(Tick::new(7) / -2i64, Tick::new(-3));
    assert_eq!(Tick::new(-7) / -2i8, Tick::new(3));
    assert_eq!(Tick::new(i64::MIN) / i64::MIN, Tick::new(1));
    assert_eq!(Tick::new(i64::MAX) / i64::MIN, Tick::new(0));
    assert_eq!(Tick::new(i64::MIN) / 2u32, Tick::new(i64::MIN / 2));
}

#[test]
fn integers_convert_into_ticks() {
    assert_eq!(Tick::from(-3i8), Tick::new(-3));
    assert_eq!(Tick::from(250u8), Tick::new(250));
    assert_eq!(Tick::from(u32::MAX), Tick::new(4_294_967_295));
    assert_eq!(Tick::from(i64::MIN), Tick::new(i64::MIN));
    assert_eq!(Tick::from(-30_000i16), Tick::new(-30_000));
}

#[test]
fn ticks_convert_into_integers_by_truncation() {
    assert_eq!(u8::from(Tick::new(300)), 44);
    assert_eq!(i8::from(Tick::new(200)), -56);
    assert_eq!(u64::from(Tick::new(-5)), 18_446_744_073_709_551_611);
    assert_eq!(i128::from(Tick::new(-5)), -5);
    assert_eq!(u128::from(Tick::new(i64::MAX)), i64::MAX as u128);
    assert_eq!(i64::from(Tick::new(42)), 42);
    assert_eq!(u16::from(Tick::new(65_537)), 1);
    assert_eq!(i32::from(Tick::new(1 << 32)), 0);
    assert_eq!(u32::from(Tick::new(7)), 7);
    assert_eq!(isize::from(Tick::new(-9)), -9);
    assert_eq!(usize::from(Tick::new(9)), 9);
    assert_eq!(i16::from(Tick::new(-1)), -1);
}

#[test]
fn raw_count_is_reachable() {
    let mut tick = Tick::new(5);
    assert_eq!(*tick.as_ref(), 5);
    *tick.as_mut() += 10;
    assert_eq!(tick.raw(), 15);
    assert!(Tick::new(-1) < Tick::new(0));
}

#[test]
fn wide_integer_scaling() {
    let second = Tick::new(TICKS_PER_SECOND);
    assert_eq!(second * 3u64, Tick::new(3 * TICKS_PER_SECOND));
    assert_eq!(second * 2usize, Tick::new(2 * TICKS_PER_SECOND));
    assert_eq!(second * -2isize, Tick::new(-2 * TICKS_PER_SECOND));
    assert_eq!(second * 2i128, Tick::new(2 * TICKS_PER_SECOND));
    assert_eq!(Tick::new(0) * u128::MAX, Tick::new(0));
    assert_eq!(Tick::new(-1) * (1u128 << 63), Tick::new(i64::MIN));
    assert_eq!(Tick::new(0) * i128::MIN, Tick::new(0));
}

#[test]
fn wide_integer_division() {
    assert_eq!(Tick::new(i64::MIN) / (1u128 << 63), Tick::new(-1));
    assert_eq!(Tick::new(i64::MIN) / (1u64 << 63), Tick::new(-1));
    assert_eq!(Tick::new(i64::MAX) / u128::MAX, Tick::new(0));
    assert_eq!(Tick::new(i64::MIN) / i128::MIN, Tick::new(0));
    assert_eq!(Tick::new(i64::MIN) / -(1i128 << 63), Tick::new(1));
    assert_eq!(Tick::new(5) / -1i128, Tick::new(-5));
    assert_eq!(Tick::new(7) / 2usize, Tick::new(3));
    assert_eq!(Tick::new(-7) / 2isize, Tick::new(-3));
}
