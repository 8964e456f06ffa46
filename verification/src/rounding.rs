//! Division that rounds to the nearest whole number.

use vstd::prelude::*;
use vstd::arithmetic::div_mod::{lemma_fundamental_div_mod, lemma_fundamental_div_mod_converse};

verus! {

/// The whole number nearest to `n / d`, for a positive `d`. A quotient that
/// lies halfway between two whole numbers goes to the one farther from
/// zero.
pub open spec fn nearest_quotient(n: int, d: int) -> int
    recommends
        d > 0,
{
    if n >= 0 {
        (2 * n + d) / (2 * d)
    } else {
        -((2 * (-n) + d) / (2 * d))
    }
}

/// Rounding to the nearest adds one to the quotient exactly where the
/// remainder is at least half the divisor.
pub proof fn lemma_nearest_quotient_by_remainder(n: int, d: int)
    requires
        n >= 0,
        d > 0,
    ensures
        nearest_quotient(n, d) == n / d + (if 2 * (n % d) >= d {
            1int
        } else {
            0int
        }),
{
    let q = n / d;
    let r = n % d;
    lemma_fundamental_div_mod(n, d);
    let k = if 2 * r >= d {
        1int
    } else {
        0int
    };
    let rest = 2 * r + d - 2 * d * k;
    assert(2 * n + d == (q + k) * (2 * d) + rest) by (nonlinear_arith)
        requires
            n == d * q + r,
            rest == 2 * r + d - 2 * d * k,
    ;
    lemma_fundamental_div_mod_converse(2 * n + d, 2 * d, q + k, rest);
}

/// Divides and rounds to the nearest whole number, halves upward.
pub fn round_div(n: u128, d: u128) -> (q: u128)
    requires
        d > 0,
    ensures
        q == nearest_quotient(n as int, d as int),
{
    let whole = n / d;
    let rest = n % d;
    proof {
        lemma_fundamental_div_mod(n as int, d as int);
        lemma_nearest_quotient_by_remainder(n as int, d as int);
    }
    if rest >= d - rest {
        assert(whole < u128::MAX) by (nonlinear_arith)
            requires
                whole == n as int / d as int,
                rest == n as int % d as int,
                n as int == d * (n as int / d as int) + n as int % d as int,
                rest >= d - rest,
                0 <= rest < d,
                n <= u128::MAX,
                whole >= 0,
        {
            assert(d >= 2);
            assert(whole * d <= n);
            assert(whole * 2 <= whole * d);
        }
        whole + 1
    } else {
        whole
    }
}

/// The whole number nearest to `n / d`, for a positive `d` and an `n` that
/// is not negative. A quotient that lies halfway between two whole numbers
/// goes to the even one.
pub open spec fn nearest_even_quotient(n: int, d: int) -> int
    recommends
        n >= 0,
        d > 0,
{
    let whole = n / d;
    let rest = n % d;
    if 2 * rest < d {
        whole
    } else if 2 * rest > d {
        whole + 1
    } else if whole % 2 == 0 {
        whole
    } else {
        whole + 1
    }
}

/// The nearest quotient lies between any two whole numbers that the exact
/// quotient lies between, and `d` times it is at most `d` away from `n`.
pub proof fn lemma_nearest_even_quotient_bounds(n: int, d: int, low: int, high: int)
    requires
        d > 0,
        low * d <= n < high * d,
    ensures
        low <= nearest_even_quotient(n, d) <= high,
        n - d <= nearest_even_quotient(n, d) * d <= n + d,
{
    let whole = n / d;
    let rest = n % d;
    lemma_fundamental_div_mod(n, d);
    assert(low <= whole < high) by (nonlinear_arith)
        requires
            n == d * whole + rest,
            0 <= rest < d,
            low * d <= n < high * d,
    ;
    assert((whole + 1) * d == whole * d + d && whole * d == d * whole) by (nonlinear_arith);
}

/// The nearest quotient is the whole number that lies less than a half
/// from `n / d`, or the even one of the two that lie exactly a half from it.
pub proof fn lemma_nearest_even_quotient_is(n: int, d: int, m: int)
    requires
        d > 0,
        n >= 0,
        (-d < 2 * (m * d - n) < d) || ((2 * (m * d - n) == d || 2 * (n - m * d) == d) && m % 2
            == 0),
    ensures
        nearest_even_quotient(n, d) == m,
{
    lemma_fundamental_div_mod(n, d);
    if m * d <= n {
        lemma_fundamental_div_mod_converse(n, d, m, n - m * d);
    } else {
        assert((m - 1) * d + (d - (m * d - n)) == n) by (nonlinear_arith);
        lemma_fundamental_div_mod_converse(n, d, m - 1, d - (m * d - n));
    }
}

/// Divides and rounds to the nearest whole number, halves to the even one.
pub fn round_div_even(n: u128, d: u128) -> (q: u128)
    requires
        d > 0,
    ensures
        q == nearest_even_quotient(n as int, d as int),
{
    let whole = n / d;
    let rest = n % d;
    let up = rest > d - rest || (rest == d - rest && whole % 2 == 1);
    if up {
        proof {
            lemma_fundamental_div_mod(n as int, d as int);
        }
        assert(whole < u128::MAX) by (nonlinear_arith)
            requires
                n as int == d * (n as int / d as int) + n as int % d as int,
                whole == n as int / d as int,
                rest == n as int % d as int,
                rest >= d - rest,
                0 <= rest < d,
                n <= u128::MAX,
                whole >= 0,
        {
            assert(d >= 2);
            assert(whole * d <= n);
            assert(whole * 2 <= whole * d);
        }
        whole + 1
    } else {
        whole
    }
}

} // verus!
