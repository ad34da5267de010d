//! Reading a tick count from decimal text, and writing one out.
use vstd::prelude::*;
use vstd::string::StringExecFns;
use core::num::ParseIntError;
use crate::tick::Tick;

verus! {

#[verifier::external_type_specification]
#[verifier::external_body]
pub struct ExParseIntError(core::num::ParseIntError);

/// An ASCII decimal digit.
pub open spec fn is_digit(c: char) -> bool {
    '0' <= c <= '9'
}

/// The character of decimal digit `d`.
pub open spec fn digit_char(d: int) -> char {
    (d + '0' as int) as char
}

/// The value of a string of decimal digits, most significant first.
pub open spec fn digits_value(digits: Seq<char>) -> int
    decreases digits.len(),
{
    if digits.len() == 0 {
        0
    } else {
        digits_value(digits.drop_last()) * 10 + (digits.last() as int - '0' as int)
    }
}

/// The integer that `s` writes in decimal: an optional `+` or `-`, then one
/// or more ASCII digits and nothing else; `None` for any other text.
pub open spec fn decimal_value(s: Seq<char>) -> Option<int> {
    let negative = s.len() > 0 && s[0] == '-';
    let digits = if s.len() > 0 && (s[0] == '-' || s[0] == '+') {
        s.drop_first()
    } else {
        s
    };
    if digits.len() > 0 && forall|i: int| 0 <= i < digits.len() ==> is_digit(#[trigger] digits[i]) {
        Some(if negative { -digits_value(digits) } else { digits_value(digits) })
    } else {
        None
    }
}

/// The `i64` that `s` writes in decimal, if it writes one in range.
pub open spec fn decimal_i64(s: Seq<char>) -> Option<i64> {
    match decimal_value(s) {
        Some(v) => if i64::MIN <= v <= i64::MAX {
            Some(v as i64)
        } else {
            None
        },
        None => None,
    }
}

/// The decimal digits of `n`, most significant first, with no leading zero.
pub open spec fn digits_text(n: nat) -> Seq<char>
    decreases n,
{
    if n < 10 {
        seq![digit_char(n as int)]
    } else {
        digits_text(n / 10).push(digit_char((n % 10) as int))
    }
}

/// `v` in decimal, with a leading `-` where it is negative.
pub open spec fn decimal_text(v: int) -> Seq<char> {
    if v < 0 {
        seq!['-'] + digits_text((-v) as nat)
    } else {
        digits_text(v as nat)
    }
}

/// Relies on `str::parse::<i64>` (`i64::from_str`), which accepts exactly an
/// optional `+` or `-` followed by one or more ASCII digits whose value fits
/// in an `i64`, and returns that value.
#[verifier::external_body]
fn parse_i64(s: &str) -> (r: Result<i64, ParseIntError>)
    ensures
        r is Ok <==> decimal_i64(s@) is Some,
        r matches Ok(v) ==> decimal_i64(s@) == Some(v),
{
    s.parse::<i64>()
}

/// Relies on `i64`'s `Display`, through `ToString::to_string`: the value in
/// decimal, with a `-` in front where it is negative.
#[verifier::external_body]
fn i64_to_string(v: i64) -> (r: String)
    ensures
        r@ == decimal_text(v as int),
{
    v.to_string()
}

impl Tick {
    /// Reads a raw tick count written in decimal; the text must be an optional
    /// sign and digits only, with a value that fits in an `i64`.
    pub fn parse(s: &str) -> (r: Result<Tick, ParseIntError>)
        ensures
            r is Ok <==> decimal_i64(s@) is Some,
            r matches Ok(t) ==> decimal_i64(s@) == Some(t.0),
    {
        match parse_i64(s) {
            Ok(v) => Ok(Tick(v)),
            Err(e) => Err(e),
        }
    }

    /// The tick as `Tick(<raw count>)`, for display.
    pub fn to_string(&self) -> (r: String)
        ensures
            r@ == "Tick("@ + decimal_text(self.0 as int) + ")"@,
    {
        let mut text = String::from_str("Tick(");
        let digits = i64_to_string(self.0);
        text.append(digits.as_str());
        text.append(")");
        text
    }
}

impl core::str::FromStr for Tick {
    type Err = ParseIntError;

    /// See `Tick::parse`.
    fn from_str(s: &str) -> (r: Result<Tick, ParseIntError>)
        ensures
            r is Ok <==> decimal_i64(s@) is Some,
            r matches Ok(t) ==> decimal_i64(s@) == Some(t.0),
    {
        Tick::parse(s)
    }
}

/// The decimal digits of `n` are one or more ASCII digits worth `n`.
proof fn lemma_digits_text(n: nat)
    ensures
        digits_text(n).len() > 0,
        forall|i: int| 0 <= i < digits_text(n).len() ==> is_digit(#[trigger] digits_text(n)[i]),
        digits_value(digits_text(n)) == n,
    decreases n,
{
    let s = digits_text(n);
    let d = if n < 10 { n as int } else { (n % 10) as int };
    assert(digit_char(d) as int == d + '0' as int);
    assert(s.last() == digit_char(d));
    if n < 10 {
        assert(s.drop_last() =~= Seq::<char>::empty());
        assert(digits_value(s.drop_last()) == 0);
    } else {
        lemma_digits_text(n / 10);
        assert(s.drop_last() =~= digits_text(n / 10));
        assert(n == (n / 10) * 10 + n % 10);
    }
}

/// Reading back the decimal text of the raw count in `Tick::to_string` gives
/// that count again: `Tick::parse` undoes what `Tick::to_string` writes
/// between its parentheses.
pub proof fn lemma_text_round_trip(v: i64)
    ensures
        decimal_i64(decimal_text(v as int)) == Some(v),
{
    if v < 0 {
        let digits = digits_text((-v) as nat);
        lemma_digits_text((-v) as nat);
        assert((seq!['-'] + digits).drop_first() =~= digits);
    } else {
        lemma_digits_text(v as nat);
    }
}

} // verus!
