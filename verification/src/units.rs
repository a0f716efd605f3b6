//! Fixed-point arithmetic shared by the rules.

use vstd::prelude::*;

verus! {

/// How many millionths make one whole: one length unit, or one second.
pub const UNIT: i64 = 1_000_000;

/// `value` limited to the closed range from `low` to `high`.
pub open spec fn clamped(value: int, low: int, high: int) -> int {
    if value < low {
        low
    } else if value > high {
        high
    } else {
        value
    }
}

/// `value` limited to what a coordinate can hold.
pub open spec fn saturated(value: int) -> int {
    clamped(value, i64::MIN as int, i64::MAX as int)
}

/// The quotient of `n` by a positive `d`, rounded towards zero.
pub open spec fn quotient(n: int, d: int) -> int {
    if n >= 0 {
        n / d
    } else {
        -((-n) / d)
    }
}

/// A quotient is no further from zero than what was divided.
pub proof fn lemma_quotient_shrinks(n: int, d: int)
    requires
        d >= 1,
    ensures
        n >= 0 ==> 0 <= quotient(n, d) <= n,
        n <= 0 ==> n <= quotient(n, d) <= 0,
{
    if n >= 0 {
        assert(0 <= n / d <= n) by (nonlinear_arith)
            requires
                n >= 0,
                d >= 1,
        ;
    } else {
        let m = -n;
        assert(0 <= m / d <= m) by (nonlinear_arith)
            requires
                m >= 0,
                d >= 1,
        ;
    }
}

/// A larger dividend gives a quotient that is no smaller.
pub proof fn lemma_quotient_monotone(a: int, b: int, d: int)
    requires
        d >= 1,
        a <= b,
    ensures
        quotient(a, d) <= quotient(b, d),
{
    lemma_quotient_shrinks(a, d);
    lemma_quotient_shrinks(b, d);
    if a >= 0 {
        assert(a / d <= b / d) by (nonlinear_arith)
            requires
                0 <= a <= b,
                d >= 1,
        ;
    } else if b < 0 {
        let m = -a;
        let k = -b;
        assert(k / d <= m / d) by (nonlinear_arith)
            requires
                0 <= k <= m,
                d >= 1,
        ;
    }
}

/// Limits `value` to the closed range from `low` to `high`.
pub(crate) fn clamp(value: i128, low: i64, high: i64) -> (limited: i64)
    requires
        low <= high,
    ensures
        limited == clamped(value as int, low as int, high as int),
{
    if value < low as i128 {
        low
    } else if value > high as i128 {
        high
    } else {
        value as i64
    }
}

/// Divides `n` by a positive `d`, rounding towards zero.
pub(crate) fn divide(n: i128, d: i128) -> (q: i128)
    requires
        d >= 1,
    ensures
        q == quotient(n as int, d as int),
{
    n / d
}

} // verus!
