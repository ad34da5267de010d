use std::str::FromStr;
use tick::Tick;

#[test]
fn parses_decimal_tick_counts() {
    assert_eq!(Tick::parse("42").unwrap(), Tick::new(42));
    assert_eq!(Tick::parse("-7").unwrap(), Tick::new(-7));
    assert_eq!(Tick::parse("+5").unwrap(), Tick::new(5));
    assert_eq!(Tick::parse("007").unwrap(), Tick::new(7));
    assert_eq!(Tick::parse("-9223372036854775808").unwrap(), Tick::new(i64::MIN));
    assert_eq!(Tick::from_str("3603600").unwrap(), Tick::new(3_603_600));
    assert_eq!("12".parse::<Tick>().unwrap(), Tick::new(12));
}

#[test]
fn rejects_other_text() {
    for text in ["", "-", "+", "abc", " 1", "1 ", "1_000", "1.5", "9223372036854775808", "--1"] {
        assert!(Tick::parse(text).is_err(), "{:?}", text);
    }
}

#[test]
fn writes_the_raw_count() {
    assert_eq!(Tick::new(42).to_string(), "Tick(42)");
    assert_eq!(Tick::new(-3).to_string(), "Tick(-3)");
    assert_eq!(Tick::new(i64::MIN).to_string(), "Tick(-9223372036854775808)");
}

#[test]
fn forward_iteration_stops_before_max() {
    let mut it = Tick::new(i64::MAX - 2).into_iter();
    assert_eq!(it.next(), Some(i64::MAX - 2));
    assert_eq!(it.next(), Some(i64::MAX - 1));
    assert_eq!(it.next(), None);
    assert_eq!(it.next(), None);
    let mut it = Tick::new(-1).into_iter();
    let mut seen = Vec::new();
    for _ in 0..3 {
        seen.push(it.next().unwrap());
    }
    assert_eq!(seen, vec![-1, 0, 1]);
}

#[test]
fn backward_steps_stop_at_min() {
    let mut it = Tick::new(i64::MIN + 2).into_iter();
    assert_eq!(it.next_back(), Some(i64::MIN + 1));
    assert_eq!(it.next_back(), Some(i64::MIN));
    assert_eq!(it.next_back(), None);
    let mut it = Tick::new(10).into_iter();
    assert_eq!(it.next(), Some(10));
    assert_eq!(it.next_back(), Some(10));
}

#[test]
fn reverse_iteration_stops_before_min() {
    let mut it = Tick::new(i64::MIN + 2).into_rev_iter();
    assert_eq!(it.next(), Some(i64::MIN + 2));
    assert_eq!(it.next(), Some(i64::MIN + 1));
    assert_eq!(it.next(), None);
    let mut it = Tick::new(1).into_rev_iter();
    let mut again = it;
    assert_eq!((it.next(), it.next()), (Some(1), Some(0)));
    assert_eq!(again.next(), Some(1));
}
