//! The tick value and the arithmetic on it.
use vstd::prelude::*;
use vstd::math::abs;
use crate::arith::{lemma_trunc_div_neg_divisor, lemma_trunc_div_shrinks, trunc_div};

verus! {

/// How many ticks make one second: the least common multiple of the common
/// frame and refresh rates, with 11 and 13 added so that the NTSC rates
/// (`30000/1001` and its kin) land on whole ticks too.
pub const TICKS_PER_SECOND: i64 = 3_603_600;

/// A point or span of time, counted in ticks. Any `i64` is a valid tick count,
/// negative ones standing for time before the origin.
#[derive(Clone, Copy, Debug, PartialEq, Eq, Hash, PartialOrd, Ord)]
pub struct Tick(pub i64);

impl Tick {
    /// Wraps a raw tick count.
    pub fn new(value: i64) -> (r: Tick)
        ensures
            r.0 == value,
    {
        Tick(value)
    }

    /// The raw tick count.
    pub fn raw(&self) -> (r: i64)
        ensures
            r == self.0,
    {
        self.0
    }
}

impl AsRef<i64> for Tick {
    /// The raw tick count.
    fn as_ref(&self) -> (r: &i64)
        ensures
            *r == self.0,
    {
        &self.0
    }
}

impl AsMut<i64> for Tick {
    /// The raw tick count, to change in place.
    fn as_mut(&mut self) -> (r: &mut i64)
        ensures
            *r == old(self).0,
            final(self).0 == *final(r),
    {
        &mut self.0
    }
}

/// `a * k`, for a product that fits in an `i64`.
fn scale_mul(a: i64, k: i128) -> (r: i64)
    requires
        i64::MIN <= a * k <= i64::MAX,
    ensures
        r == a * k,
{
    if a == 0 {
        0
    } else {
        assert(-0x8000_0000_0000_0000 <= k <= 0x8000_0000_0000_0000) by (nonlinear_arith)
            requires
                a != 0,
                -0x8000_0000_0000_0000 <= a * k <= 0x7fff_ffff_ffff_ffff,
        ;
        ((a as i128) * k) as i64
    }
}

/// `a / k` rounded toward zero, for a divisor of either sign.
fn scale_div(a: i64, k: i128) -> (r: i64)
    requires
        k != 0,
        !(a == i64::MIN && k == -1),
    ensures
        r == trunc_div(a as int, k as int),
{
    let x = a as i128;
    if k > 0x8000_0000_0000_0000 || k < -0x8000_0000_0000_0000 {
        // The divisor outweighs any tick count.
        proof {
            vstd::arithmetic::div_mod::lemma_basic_div(abs(x as int) as int, abs(k as int) as int);
        }
        0
    } else if k > 0 {
        proof {
            lemma_trunc_div_shrinks(x as int, k as int);
        }
        (x / k) as i64
    } else {
        let m = -k;
        proof {
            lemma_trunc_div_neg_divisor(x as int, m as int);
            lemma_trunc_div_shrinks(x as int, m as int);
            if x == i64::MIN && m >= 2 {
                vstd::arithmetic::div_mod::lemma_div_is_ordered_by_denominator(-x, 2, m as int);
            }
        }
        let q = x / m;
        (-q) as i64
    }
}

impl core::ops::Add for Tick {
    type Output = Tick;

    /// Exact sum; the sum must fit in an `i64`.
    fn add(self, rhs: Tick) -> (r: Tick)
        ensures
            r.0 == self.0 + rhs.0,
    {
        Tick(self.0 + rhs.0)
    }
}

impl vstd::std_specs::ops::AddSpecImpl for Tick {
    open spec fn obeys_add_spec() -> bool {
        true
    }

    open spec fn add_req(self, rhs: Tick) -> bool {
        i64::MIN <= self.0 + rhs.0 <= i64::MAX
    }

    open spec fn add_spec(self, rhs: Tick) -> Tick {
        Tick((self.0 + rhs.0) as i64)
    }
}

impl core::ops::Sub for Tick {
    type Output = Tick;

    /// Exact difference; the difference must fit in an `i64`.
    fn sub(self, rhs: Tick) -> (r: Tick)
        ensures
            r.0 == self.0 - rhs.0,
    {
        Tick(self.0 - rhs.0)
    }
}

impl vstd::std_specs::ops::SubSpecImpl for Tick {
    open spec fn obeys_sub_spec() -> bool {
        true
    }

    open spec fn sub_req(self, rhs: Tick) -> bool {
        i64::MIN <= self.0 - rhs.0 <= i64::MAX
    }

    open spec fn sub_spec(self, rhs: Tick) -> Tick {
        Tick((self.0 - rhs.0) as i64)
    }
}

impl core::ops::Mul<i8> for Tick {
    type Output = Tick;

    /// Exact product; it must fit in an `i64`.
    fn mul(self, rhs: i8) -> (r: Tick)
        ensures
            r.0 == self.0 * rhs,
    {
        Tick(scale_mul(self.0, rhs as i128))
    }
}

impl vstd::std_specs::ops::MulSpecImpl<i8> for Tick {
    open spec fn obeys_mul_spec() -> bool {
        true
    }

    open spec fn mul_req(self, rhs: i8) -> bool {
        i64::MIN <= self.0 * rhs <= i64::MAX
    }

    open spec fn mul_spec(self, rhs: i8) -> Tick {
        Tick((self.0 * rhs) as i64)
    }
}

impl core::ops::Div<i8> for Tick {
    type Output = Tick;

    /// Quotient rounded toward zero; the divisor must not be zero, nor
    /// `-1` with `i64::MIN` ticks.
    fn div(self, rhs: i8) -> (r: Tick)
        ensures
            r.0 == trunc_div(self.0 as int, rhs as int),
    {
        Tick(scale_div(self.0, rhs as i128))
    }
}

impl vstd::std_specs::ops::DivSpecImpl<i8> for Tick {
    open spec fn obeys_div_spec() -> bool {
        true
    }

    open spec fn div_req(self, rhs: i8) -> bool {
        rhs != 0 && !(self.0 == i64::MIN && rhs == -1)
    }

    open spec fn div_spec(self, rhs: i8) -> Tick {
        Tick(trunc_div(self.0 as int, rhs as int) as i64)
    }
}

impl core::ops::Mul<i16> for Tick {
    type Output = Tick;

    /// Exact product; it must fit in an `i64`.
    fn mul(self, rhs: i16) -> (r: Tick)
        ensures
            r.0 == self.0 * rhs,
    {
        Tick(scale_mul(self.0, rhs as i128))
    }
}

impl vstd::std_specs::ops::MulSpecImpl<i16> for Tick {
    open spec fn obeys_mul_spec() -> bool {
        true
    }

    open spec fn mul_req(self, rhs: i16) -> bool {
        i64::MIN <= self.0 * rhs <= i64::MAX
    }

    open spec fn mul_spec(self, rhs: i16) -> Tick {
        Tick((self.0 * rhs) as i64)
    }
}

impl core::ops::Div<i16> for Tick {
    type Output = Tick;

    /// Quotient rounded toward zero; the divisor must not be zero, nor
    /// `-1` with `i64::MIN` ticks.
    fn div(self, rhs: i16) -> (r: Tick)
        ensures
            r.0 == trunc_div(self.0 as int, rhs as int),
    {
        Tick(scale_div(self.0, rhs as i128))
    }
}

impl vstd::std_specs::ops::DivSpecImpl<i16> for Tick {
    open spec fn obeys_div_spec() -> bool {
        true
    }

    open spec fn div_req(self, rhs: i16) -> bool {
        rhs != 0 && !(self.0 == i64::MIN && rhs == -1)
    }

    open spec fn div_spec(self, rhs: i16) -> Tick {
        Tick(trunc_div(self.0 as int, rhs as int) as i64)
    }
}

impl core::ops::Mul<i32> for Tick {
    type Output = Tick;

    /// Exact product; it must fit in an `i64`.
    fn mul(self, rhs: i32) -> (r: Tick)
        ensures
            r.0 == self.0 * rhs,
    {
        Tick(scale_mul(self.0, rhs as i128))
    }
}

impl vstd::std_specs::ops::MulSpecImpl<i32> for Tick {
    open spec fn obeys_mul_spec() -> bool {
        true
    }

    open spec fn mul_req(self, rhs: i32) -> bool {
        i64::MIN <= self.0 * rhs <= i64::MAX
    }

    open spec fn mul_spec(self, rhs: i32) -> Tick {
        Tick((self.0 * rhs) as i64)
    }
}

impl core::ops::Div<i32> for Tick {
    type Output = Tick;

    /// Quotient rounded toward zero; the divisor must not be zero, nor
    /// `-1` with `i64::MIN` ticks.
    fn div(self, rhs: i32) -> (r: Tick)
        ensures
            r.0 == trunc_div(self.0 as int, rhs as int),
    {
        Tick(scale_div(self.0, rhs as i128))
    }
}

impl vstd::std_specs::ops::DivSpecImpl<i32> for Tick {
    open spec fn obeys_div_spec() -> bool {
        true
    }

    open spec fn div_req(self, rhs: i32) -> bool {
        rhs != 0 && !(self.0 == i64::MIN && rhs == -1)
    }

    open spec fn div_spec(self, rhs: i32) -> Tick {
        Tick(trunc_div(self.0 as int, rhs as int) as i64)
    }
}

impl core::ops::Mul<i64> for Tick {
    type Output = Tick;

    /// Exact product; it must fit in an `i64`.
    fn mul(self, rhs: i64) -> (r: Tick)
        ensures
            r.0 == self.0 * rhs,
    {
        Tick(scale_mul(self.0, rhs as i128))
    }
}

impl vstd::std_specs::ops::MulSpecImpl<i64> for Tick {
    open spec fn obeys_mul_spec() -> bool {
        true
    }

    open spec fn mul_req(self, rhs: i64) -> bool {
        i64::MIN <= self.0 * rhs <= i64::MAX
    }

    open spec fn mul_spec(self, rhs: i64) -> Tick {
        Tick((self.0 * rhs) as i64)
    }
}

impl core::ops::Div<i64> for Tick {
    type Output = Tick;

    /// Quotient rounded toward zero; the divisor must not be zero, nor
    /// `-1` with `i64::MIN` ticks.
    fn div(self, rhs: i64) -> (r: Tick)
        ensures
            r.0 == trunc_div(self.0 as int, rhs as int),
    {
        Tick(scale_div(self.0, rhs as i128))
    }
}

impl vstd::std_specs::ops::DivSpecImpl<i64> for Tick {
    open spec fn obeys_div_spec() -> bool {
        true
    }

    open spec fn div_req(self, rhs: i64) -> bool {
        rhs != 0 && !(self.0 == i64::MIN && rhs == -1)
    }

    open spec fn div_spec(self, rhs: i64) -> Tick {
        Tick(trunc_div(self.0 as int, rhs as int) as i64)
    }
}

impl core::ops::Mul<i128> for Tick {
    type Output = Tick;

    /// Exact product; it must fit in an `i64`.
    fn mul(self, rhs: i128) -> (r: Tick)
        ensures
            r.0 == self.0 * rhs,
    {
        Tick(scale_mul(self.0, rhs as i128))
    }
}

impl vstd::std_specs::ops::MulSpecImpl<i128> for Tick {
    open spec fn obeys_mul_spec() -> bool {
        true
    }

    open spec fn mul_req(self, rhs: i128) -> bool {
        i64::MIN <= self.0 * rhs <= i64::MAX
    }

    open spec fn mul_spec(self, rhs: i128) -> Tick {
        Tick((self.0 * rhs) as i64)
    }
}

impl core::ops::Div<i128> for Tick {
    type Output = Tick;

    /// Quotient rounded toward zero; the divisor must not be zero, nor
    /// `-1` with `i64::MIN` ticks.
    fn div(self, rhs: i128) -> (r: Tick)
        ensures
            r.0 == trunc_div(self.0 as int, rhs as int),
    {
        Tick(scale_div(self.0, rhs as i128))
    }
}

impl vstd::std_specs::ops::DivSpecImpl<i128> for Tick {
    open spec fn obeys_div_spec() -> bool {
        true
    }

    open spec fn div_req(self, rhs: i128) -> bool {
        rhs != 0 && !(self.0 == i64::MIN && rhs == -1)
    }

    open spec fn div_spec(self, rhs: i128) -> Tick {
        Tick(trunc_div(self.0 as int, rhs as int) as i64)
    }
}

impl core::ops::Mul<isize> for Tick {
    type Output = Tick;

    /// Exact product; it must fit in an `i64`.
    fn mul(self, rhs: isize) -> (r: Tick)
        ensures
            r.0 == self.0 * rhs,
    {
        Tick(scale_mul(self.0, rhs as i128))
    }
}

impl vstd::std_specs::ops::MulSpecImpl<isize> for Tick {
    open spec fn obeys_mul_spec() -> bool {
        true
    }

    open spec fn mul_req(self, rhs: isize) -> bool {
        i64::MIN <= self.0 * rhs <= i64::MAX
    }

    open spec fn mul_spec(self, rhs: isize) -> Tick {
        Tick((self.0 * rhs) as i64)
    }
}

impl core::ops::Div<isize> for Tick {
    type Output = Tick;

    /// Quotient rounded toward zero; the divisor must not be zero, nor
    /// `-1` with `i64::MIN` ticks.
    fn div(self, rhs: isize) -> (r: Tick)
        ensures
            r.0 == trunc_div(self.0 as int, rhs as int),
    {
        Tick(scale_div(self.0, rhs as i128))
    }
}

impl vstd::std_specs::ops::DivSpecImpl<isize> for Tick {
    open spec fn obeys_div_spec() -> bool {
        true
    }

    open spec fn div_req(self, rhs: isize) -> bool {
        rhs != 0 && !(self.0 == i64::MIN && rhs == -1)
    }

    open spec fn div_spec(self, rhs: isize) -> Tick {
        Tick(trunc_div(self.0 as int, rhs as int) as i64)
    }
}

impl core::ops::Mul<u8> for Tick {
    type Output = Tick;

    /// Exact product; it must fit in an `i64`.
    fn mul(self, rhs: u8) -> (r: Tick)
        ensures
            r.0 == self.0 * rhs,
    {
        Tick(scale_mul(self.0, rhs as i128))
    }
}

impl vstd::std_specs::ops::MulSpecImpl<u8> for Tick {
    open spec fn obeys_mul_spec() -> bool {
        true
    }

    open spec fn mul_req(self, rhs: u8) -> bool {
        i64::MIN <= self.0 * rhs <= i64::MAX
    }

    open spec fn mul_spec(self, rhs: u8) -> Tick {
        Tick((self.0 * rhs) as i64)
    }
}

impl core::ops::Div<u8> for Tick {
    type Output = Tick;

    /// Quotient rounded toward zero; the divisor must not be zero.
    fn div(self, rhs: u8) -> (r: Tick)
        ensures
            r.0 == trunc_div(self.0 as int, rhs as int),
    {
        Tick(scale_div(self.0, rhs as i128))
    }
}

impl vstd::std_specs::ops::DivSpecImpl<u8> for Tick {
    open spec fn obeys_div_spec() -> bool {
        true
    }

    open spec fn div_req(self, rhs: u8) -> bool {
        rhs != 0
    }

    open spec fn div_spec(self, rhs: u8) -> Tick {
        Tick(trunc_div(self.0 as int, rhs as int) as i64)
    }
}

impl core::ops::Mul<u16> for Tick {
    type Output = Tick;

    /// Exact product; it must fit in an `i64`.
    fn mul(self, rhs: u16) -> (r: Tick)
        ensures
            r.0 == self.0 * rhs,
    {
        Tick(scale_mul(self.0, rhs as i128))
    }
}

impl vstd::std_specs::ops::MulSpecImpl<u16> for Tick {
    open spec fn obeys_mul_spec() -> bool {
        true
    }

    open spec fn mul_req(self, rhs: u16) -> bool {
        i64::MIN <= self.0 * rhs <= i64::MAX
    }

    open spec fn mul_spec(self, rhs: u16) -> Tick {
        Tick((self.0 * rhs) as i64)
    }
}

impl core::ops::Div<u16> for Tick {
    type Output = Tick;

    /// Quotient rounded toward zero; the divisor must not be zero.
    fn div(self, rhs: u16) -> (r: Tick)
        ensures
            r.0 == trunc_div(self.0 as int, rhs as int),
    {
        Tick(scale_div(self.0, rhs as i128))
    }
}

impl vstd::std_specs::ops::DivSpecImpl<u16> for Tick {
    open spec fn obeys_div_spec() -> bool {
        true
    }

    open spec fn div_req(self, rhs: u16) -> bool {
        rhs != 0
    }

    open spec fn div_spec(self, rhs: u16) -> Tick {
        Tick(trunc_div(self.0 as int, rhs as int) as i64)
    }
}

impl core::ops::Mul<u32> for Tick {
    type Output = Tick;

    /// Exact product; it must fit in an `i64`.
    fn mul(self, rhs: u32) -> (r: Tick)
        ensures
            r.0 == self.0 * rhs,
    {
        Tick(scale_mul(self.0, rhs as i128))
    }
}

impl vstd::std_specs::ops::MulSpecImpl<u32> for Tick {
    open spec fn obeys_mul_spec() -> bool {
        true
    }

    open spec fn mul_req(self, rhs: u32) -> bool {
        i64::MIN <= self.0 * rhs <= i64::MAX
    }

    open spec fn mul_spec(self, rhs: u32) -> Tick {
        Tick((self.0 * rhs) as i64)
    }
}

impl core::ops::Div<u32> for Tick {
    type Output = Tick;

    /// Quotient rounded toward zero; the divisor must not be zero.
    fn div(self, rhs: u32) -> (r: Tick)
        ensures
            r.0 == trunc_div(self.0 as int, rhs as int),
    {
        Tick(scale_div(self.0, rhs as i128))
    }
}

impl vstd::std_specs::ops::DivSpecImpl<u32> for Tick {
    open spec fn obeys_div_spec() -> bool {
        true
    }

    open spec fn div_req(self, rhs: u32) -> bool {
        rhs != 0
    }

    open spec fn div_spec(self, rhs: u32) -> Tick {
        Tick(trunc_div(self.0 as int, rhs as int) as i64)
    }
}

impl core::ops::Mul<u64> for Tick {
    type Output = Tick;

    /// Exact product; it must fit in an `i64`.
    fn mul(self, rhs: u64) -> (r: Tick)
        ensures
            r.0 == self.0 * rhs,
    {
        Tick(scale_mul(self.0, rhs as i128))
    }
}

impl vstd::std_specs::ops::MulSpecImpl<u64> for Tick {
    open spec fn obeys_mul_spec() -> bool {
        true
    }

    open spec fn mul_req(self, rhs: u64) -> bool {
        i64::MIN <= self.0 * rhs <= i64::MAX
    }

    open spec fn mul_spec(self, rhs: u64) -> Tick {
        Tick((self.0 * rhs) as i64)
    }
}

impl core::ops::Div<u64> for Tick {
    type Output = Tick;

    /// Quotient rounded toward zero; the divisor must not be zero.
    fn div(self, rhs: u64) -> (r: Tick)
        ensures
            r.0 == trunc_div(self.0 as int, rhs as int),
    {
        Tick(scale_div(self.0, rhs as i128))
    }
}

impl vstd::std_specs::ops::DivSpecImpl<u64> for Tick {
    open spec fn obeys_div_spec() -> bool {
        true
    }

    open spec fn div_req(self, rhs: u64) -> bool {
        rhs != 0
    }

    open spec fn div_spec(self, rhs: u64) -> Tick {
        Tick(trunc_div(self.0 as int, rhs as int) as i64)
    }
}

impl core::ops::Mul<u128> for Tick {
    type Output = Tick;

    /// Exact product; it must fit in an `i64`.
    fn mul(self, rhs: u128) -> (r: Tick)
        ensures
            r.0 == self.0 * rhs,
    {
        if self.0 == 0 {
            Tick(0)
        } else {
            assert(rhs <= 0x8000_0000_0000_0000) by (nonlinear_arith)
                requires
                    self.0 != 0,
                    -0x8000_0000_0000_0000 <= self.0 * rhs <= 0x7fff_ffff_ffff_ffff,
            ;
            Tick(scale_mul(self.0, rhs as i128))
        }
    }
}

impl vstd::std_specs::ops::MulSpecImpl<u128> for Tick {
    open spec fn obeys_mul_spec() -> bool {
        true
    }

    open spec fn mul_req(self, rhs: u128) -> bool {
        i64::MIN <= self.0 * rhs <= i64::MAX
    }

    open spec fn mul_spec(self, rhs: u128) -> Tick {
        Tick((self.0 * rhs) as i64)
    }
}

impl core::ops::Div<u128> for Tick {
    type Output = Tick;

    /// Quotient rounded toward zero; the divisor must not be zero.
    fn div(self, rhs: u128) -> (r: Tick)
        ensures
            r.0 == trunc_div(self.0 as int, rhs as int),
    {
        if rhs > 0x8000_0000_0000_0000 {
            // The divisor outweighs any tick count.
            proof {
                vstd::arithmetic::div_mod::lemma_basic_div(abs(self.0 as int) as int, rhs as int);
            }
            Tick(0)
        } else {
            Tick(scale_div(self.0, rhs as i128))
        }
    }
}

impl vstd::std_specs::ops::DivSpecImpl<u128> for Tick {
    open spec fn obeys_div_spec() -> bool {
        true
    }

    open spec fn div_req(self, rhs: u128) -> bool {
        rhs != 0
    }

    open spec fn div_spec(self, rhs: u128) -> Tick {
        Tick(trunc_div(self.0 as int, rhs as int) as i64)
    }
}

impl core::ops::Mul<usize> for Tick {
    type Output = Tick;

    /// Exact product; it must fit in an `i64`.
    fn mul(self, rhs: usize) -> (r: Tick)
        ensures
            r.0 == self.0 * rhs,
    {
        Tick(scale_mul(self.0, rhs as i128))
    }
}

impl vstd::std_specs::ops::MulSpecImpl<usize> for Tick {
    open spec fn obeys_mul_spec() -> bool {
        true
    }

    open spec fn mul_req(self, rhs: usize) -> bool {
        i64::MIN <= self.0 * rhs <= i64::MAX
    }

    open spec fn mul_spec(self, rhs: usize) -> Tick {
        Tick((self.0 * rhs) as i64)
    }
}

impl core::ops::Div<usize> for Tick {
    type Output = Tick;

    /// Quotient rounded toward zero; the divisor must not be zero.
    fn div(self, rhs: usize) -> (r: Tick)
        ensures
            r.0 == trunc_div(self.0 as int, rhs as int),
    {
        Tick(scale_div(self.0, rhs as i128))
    }
}

impl vstd::std_specs::ops::DivSpecImpl<usize> for Tick {
    open spec fn obeys_div_spec() -> bool {
        true
    }

    open spec fn div_req(self, rhs: usize) -> bool {
        rhs != 0
    }

    open spec fn div_spec(self, rhs: usize) -> Tick {
        Tick(trunc_div(self.0 as int, rhs as int) as i64)
    }
}

impl From<i8> for Tick {
    /// The tick count `value`.
    fn from(value: i8) -> (r: Tick)
        ensures
            r.0 == value,
    {
        Tick(value as i64)
    }
}

impl vstd::std_specs::convert::FromSpecImpl<i8> for Tick {
    open spec fn obeys_from_spec() -> bool {
        true
    }

    open spec fn from_spec(value: i8) -> Tick {
        Tick(value as i64)
    }
}

impl From<i16> for Tick {
    /// The tick count `value`.
    fn from(value: i16) -> (r: Tick)
        ensures
            r.0 == value,
    {
        Tick(value as i64)
    }
}

impl vstd::std_specs::convert::FromSpecImpl<i16> for Tick {
    open spec fn obeys_from_spec() -> bool {
        true
    }

    open spec fn from_spec(value: i16) -> Tick {
        Tick(value as i64)
    }
}

impl From<i32> for Tick {
    /// The tick count `value`.
    fn from(value: i32) -> (r: Tick)
        ensures
            r.0 == value,
    {
        Tick(value as i64)
    }
}

impl vstd::std_specs::convert::FromSpecImpl<i32> for Tick {
    open spec fn obeys_from_spec() -> bool {
        true
    }

    open spec fn from_spec(value: i32) -> Tick {
        Tick(value as i64)
    }
}

impl From<i64> for Tick {
    /// The tick count `value`.
    fn from(value: i64) -> (r: Tick)
        ensures
            r.0 == value,
    {
        Tick(value as i64)
    }
}

impl vstd::std_specs::convert::FromSpecImpl<i64> for Tick {
    open spec fn obeys_from_spec() -> bool {
        true
    }

    open spec fn from_spec(value: i64) -> Tick {
        Tick(value as i64)
    }
}

impl From<u8> for Tick {
    /// The tick count `value`.
    fn from(value: u8) -> (r: Tick)
        ensures
            r.0 == value,
    {
        Tick(value as i64)
    }
}

impl vstd::std_specs::convert::FromSpecImpl<u8> for Tick {
    open spec fn obeys_from_spec() -> bool {
        true
    }

    open spec fn from_spec(value: u8) -> Tick {
        Tick(value as i64)
    }
}

impl From<u16> for Tick {
    /// The tick count `value`.
    fn from(value: u16) -> (r: Tick)
        ensures
            r.0 == value,
    {
        Tick(value as i64)
    }
}

impl vstd::std_specs::convert::FromSpecImpl<u16> for Tick {
    open spec fn obeys_from_spec() -> bool {
        true
    }

    open spec fn from_spec(value: u16) -> Tick {
        Tick(value as i64)
    }
}

impl From<u32> for Tick {
    /// The tick count `value`.
    fn from(value: u32) -> (r: Tick)
        ensures
            r.0 == value,
    {
        Tick(value as i64)
    }
}

impl vstd::std_specs::convert::FromSpecImpl<u32> for Tick {
    open spec fn obeys_from_spec() -> bool {
        true
    }

    open spec fn from_spec(value: u32) -> Tick {
        Tick(value as i64)
    }
}

impl From<Tick> for u8 {
    /// The raw tick count, cut down to the low bits that fit where it is narrower.
    fn from(tick: Tick) -> (r: u8)
        ensures
            r == tick.0 as u8,
    {
        #[verifier::truncate]
        (tick.0 as u8)
    }
}

impl vstd::std_specs::convert::FromSpecImpl<Tick> for u8 {
    open spec fn obeys_from_spec() -> bool {
        true
    }

    open spec fn from_spec(tick: Tick) -> u8 {
        tick.0 as u8
    }
}

impl From<Tick> for u16 {
    /// The raw tick count, cut down to the low bits that fit where it is narrower.
    fn from(tick: Tick) -> (r: u16)
        ensures
            r == tick.0 as u16,
    {
        #[verifier::truncate]
        (tick.0 as u16)
    }
}

impl vstd::std_specs::convert::FromSpecImpl<Tick> for u16 {
    open spec fn obeys_from_spec() -> bool {
        true
    }

    open spec fn from_spec(tick: Tick) -> u16 {
        tick.0 as u16
    }
}

impl From<Tick> for u32 {
    /// The raw tick count, cut down to the low bits that fit where it is narrower.
    fn from(tick: Tick) -> (r: u32)
        ensures
            r == tick.0 as u32,
    {
        #[verifier::truncate]
        (tick.0 as u32)
    }
}

impl vstd::std_specs::convert::FromSpecImpl<Tick> for u32 {
    open spec fn obeys_from_spec() -> bool {
        true
    }

    open spec fn from_spec(tick: Tick) -> u32 {
        tick.0 as u32
    }
}

impl From<Tick> for u64 {
    /// The raw tick count, cut down to the low bits that fit where it is narrower.
    fn from(tick: Tick) -> (r: u64)
        ensures
            r == tick.0 as u64,
    {
        #[verifier::truncate]
        (tick.0 as u64)
    }
}

impl vstd::std_specs::convert::FromSpecImpl<Tick> for u64 {
    open spec fn obeys_from_spec() -> bool {
        true
    }

    open spec fn from_spec(tick: Tick) -> u64 {
        tick.0 as u64
    }
}

impl From<Tick> for u128 {
    /// The raw tick count, cut down to the low bits that fit where it is narrower.
    fn from(tick: Tick) -> (r: u128)
        ensures
            r == tick.0 as u128,
    {
        #[verifier::truncate]
        (tick.0 as u128)
    }
}

impl vstd::std_specs::convert::FromSpecImpl<Tick> for u128 {
    open spec fn obeys_from_spec() -> bool {
        true
    }

    open spec fn from_spec(tick: Tick) -> u128 {
        tick.0 as u128
    }
}

impl From<Tick> for usize {
    /// The raw tick count, cut down to the low bits that fit where it is narrower.
    fn from(tick: Tick) -> (r: usize)
        ensures
            r == tick.0 as usize,
    {
        #[verifier::truncate]
        (tick.0 as usize)
    }
}

impl vstd::std_specs::convert::FromSpecImpl<Tick> for usize {
    open spec fn obeys_from_spec() -> bool {
        true
    }

    open spec fn from_spec(tick: Tick) -> usize {
        tick.0 as usize
    }
}

impl From<Tick> for i8 {
    /// The raw tick count, cut down to the low bits that fit where it is narrower.
    fn from(tick: Tick) -> (r: i8)
        ensures
            r == tick.0 as i8,
    {
        #[verifier::truncate]
        (tick.0 as i8)
    }
}

impl vstd::std_specs::convert::FromSpecImpl<Tick> for i8 {
    open spec fn obeys_from_spec() -> bool {
        true
    }

    open spec fn from_spec(tick: Tick) -> i8 {
        tick.0 as i8
    }
}

impl From<Tick> for i16 {
    /// The raw tick count, cut down to the low bits that fit where it is narrower.
    fn from(tick: Tick) -> (r: i16)
        ensures
            r == tick.0 as i16,
    {
        #[verifier::truncate]
        (tick.0 as i16)
    }
}

impl vstd::std_specs::convert::FromSpecImpl<Tick> for i16 {
    open spec fn obeys_from_spec() -> bool {
        true
    }

    open spec fn from_spec(tick: Tick) -> i16 {
        tick.0 as i16
    }
}

impl From<Tick> for i32 {
    /// The raw tick count, cut down to the low bits that fit where it is narrower.
    fn from(tick: Tick) -> (r: i32)
        ensures
            r == tick.0 as i32,
    {
        #[verifier::truncate]
        (tick.0 as i32)
    }
}

impl vstd::std_specs::convert::FromSpecImpl<Tick> for i32 {
    open spec fn obeys_from_spec() -> bool {
        true
    }

    open spec fn from_spec(tick: Tick) -> i32 {
        tick.0 as i32
    }
}

impl From<Tick> for i64 {
    /// The raw tick count, cut down to the low bits that fit where it is narrower.
    fn from(tick: Tick) -> (r: i64)
        ensures
            r == tick.0 as i64,
    {
        #[verifier::truncate]
        (tick.0 as i64)
    }
}

impl vstd::std_specs::convert::FromSpecImpl<Tick> for i64 {
    open spec fn obeys_from_spec() -> bool {
        true
    }

    open spec fn from_spec(tick: Tick) -> i64 {
        tick.0 as i64
    }
}

impl From<Tick> for i128 {
    /// The raw tick count, cut down to the low bits that fit where it is narrower.
    fn from(tick: Tick) -> (r: i128)
        ensures
            r == tick.0 as i128,
    {
        #[verifier::truncate]
        (tick.0 as i128)
    }
}

impl vstd::std_specs::convert::FromSpecImpl<Tick> for i128 {
    open spec fn obeys_from_spec() -> bool {
        true
    }

    open spec fn from_spec(tick: Tick) -> i128 {
        tick.0 as i128
    }
}

impl From<Tick> for isize {
    /// The raw tick count, cut down to the low bits that fit where it is narrower.
    fn from(tick: Tick) -> (r: isize)
        ensures
            r == tick.0 as isize,
    {
        #[verifier::truncate]
        (tick.0 as isize)
    }
}

impl vstd::std_specs::convert::FromSpecImpl<Tick> for isize {
    open spec fn obeys_from_spec() -> bool {
        true
    }

    open spec fn from_spec(tick: Tick) -> isize {
        tick.0 as isize
    }
}

} // verus!
