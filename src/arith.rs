//! Integer division as the machine does it, stated over mathematical integers.
use vstd::prelude::*;
use vstd::math::abs;

verus! {

/// The quotient of `a / b` rounded toward zero, which is what Rust's `/`
/// computes on signed integers: the quotient of the magnitudes, negated where
/// the signs differ. (Verus's own `/` on `int` is Euclidean.)
pub open spec fn trunc_div(a: int, b: int) -> int {
    let q: int = (abs(a) / abs(b)) as int;
    if (a < 0) == (b < 0) {
        q
    } else {
        -q
    }
}

/// The remainder that goes with `trunc_div`; it takes the sign of `a`, as
/// Rust's `%` does.
pub open spec fn trunc_rem(a: int, b: int) -> int {
    a - b * trunc_div(a, b)
}

/// The magnitude of a truncated quotient never exceeds that of the dividend.
pub proof fn lemma_trunc_div_shrinks(a: int, b: int)
    requires
        b > 0,
    ensures
        a >= 0 ==> 0 <= trunc_div(a, b) <= a,
        a < 0 ==> a <= trunc_div(a, b) <= 0,
{
    if a >= 0 {
        assert(a / b <= a) by (nonlinear_arith)
            requires
                a >= 0,
                b > 0,
        ;
        assert(a / b >= 0) by (nonlinear_arith)
            requires
                a >= 0,
                b > 0,
        ;
    } else {
        assert((-a) / b <= -a) by (nonlinear_arith)
            requires
                -a >= 0,
                b > 0,
        ;
        assert((-a) / b >= 0) by (nonlinear_arith)
            requires
                -a >= 0,
                b > 0,
        ;
    }
}

/// Dividing an exact multiple gives the other factor back, whatever the sign.
pub proof fn lemma_trunc_div_exact(q: int, b: int)
    requires
        b > 0,
    ensures
        trunc_div(q * b, b) == q,
{
    if q >= 0 {
        vstd::arithmetic::div_mod::lemma_div_multiples_vanish(q, b);
        assert(q * b >= 0) by (nonlinear_arith)
            requires
                q >= 0,
                b > 0,
        ;
        assert(b * q == q * b) by (nonlinear_arith);
    } else {
        assert(q * b < 0) by (nonlinear_arith)
            requires
                q < 0,
                b > 0,
        ;
        assert(-(q * b) == (-q) * b) by (nonlinear_arith);
        assert(b * (-q) == (-q) * b) by (nonlinear_arith);
        vstd::arithmetic::div_mod::lemma_div_multiples_vanish(-q, b);
    }
}

/// A truncated quotient is bounded by the bound of its dividend, divided.
pub proof fn lemma_trunc_div_bound(a: int, b: int, m: int)
    requires
        b > 0,
        -m <= a <= m,
    ensures
        -(m / b) <= trunc_div(a, b) <= m / b,
{
    if a >= 0 {
        vstd::arithmetic::div_mod::lemma_div_is_ordered(a, m, b);
        vstd::arithmetic::div_mod::lemma_div_pos_is_pos(a, b);
    } else {
        vstd::arithmetic::div_mod::lemma_div_is_ordered(-a, m, b);
        vstd::arithmetic::div_mod::lemma_div_pos_is_pos(-a, b);
    }
}

/// The truncated remainder lies strictly between `-b` and `b`, has the sign
/// of `a`, and is what Rust's `%` gives.
pub proof fn lemma_trunc_rem(a: int, b: int)
    requires
        b > 0,
    ensures
        trunc_rem(a, b) == (if a >= 0 {
            a % b
        } else {
            -((-a) % b)
        }),
        a >= 0 ==> 0 <= trunc_rem(a, b) < b,
        a < 0 ==> -b < trunc_rem(a, b) <= 0,
{
    vstd::arithmetic::div_mod::lemma_fundamental_div_mod(a, b);
    vstd::arithmetic::div_mod::lemma_fundamental_div_mod(-a, b);
    let q = (-a) / b;
    assert(b * (-q) == -(b * q)) by (nonlinear_arith);
}

/// Negating the divisor negates the truncated quotient.
pub proof fn lemma_trunc_div_neg_divisor(a: int, b: int)
    requires
        b > 0,
    ensures
        trunc_div(a, -b) == -trunc_div(a, b),
{
}

} // verus!
