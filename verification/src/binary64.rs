//! Rounding as the binary floating-point format of 64 bits does it.
//!
//! A number of that format has 53 significant binary digits. A fraction is
//! rounded to the nearest such number, and a fraction halfway between two
//! of them goes to the one whose last digit is even. The numbers are kept
//! as exact fractions of whole numbers here, so nothing in this module
//! computes in floating point.
//!
//! Only the numbers of the normal range are covered, which is where every
//! fraction lies that this module admits.

use vstd::prelude::*;
use vstd::arithmetic::power2::{lemma_pow2_pos, lemma_pow2_unfold, pow2};
use crate::rounding::{
    lemma_nearest_even_quotient_bounds,
    lemma_nearest_even_quotient_is,
    nearest_even_quotient,
    round_div_even,
};

verus! {

/// Two to the power of 52: the least whole number with 53 binary digits.
pub const TWO_52: u128 = 0x10_0000_0000_0000;

/// Two to the power of 53: the least whole number with 54 binary digits.
pub const TWO_53: u128 = 0x20_0000_0000_0000;

/// Numerators and denominators stay below this: two to the power of 74.
pub const RATIO_LIMIT: u128 = 0x400_0000_0000_0000_0000;

/// A fraction of two whole numbers.
#[derive(Clone, Copy, Debug, PartialEq, Eq)]
pub struct Ratio {
    pub num: u128,
    pub den: u128,
}

impl Ratio {
    /// The numerator and the denominator.
    pub open spec fn parts(self) -> (int, int) {
        (self.num as int, self.den as int)
    }
}

/// The power of two by which a positive fraction `n / d` below two to the
/// power of 52 is multiplied to bring it to 53 binary digits before the
/// point, and one for any other fraction.
pub open spec fn scale_up(n: int, d: int) -> int
    decreases
        (if 0x10_0000_0000_0000 * d > n {
            0x10_0000_0000_0000 * d - n
        } else {
            0
        }),
{
    if n <= 0 || n >= 0x10_0000_0000_0000 * d {
        1
    } else {
        2 * scale_up(2 * n, d)
    }
}

/// The power of two by which a fraction `n / d` of two to the power of 53
/// or more is divided to bring it to 53 binary digits before the point, and
/// one for any other fraction.
pub open spec fn scale_down(n: int, d: int) -> int
    decreases
        (if n >= 0x20_0000_0000_0000 * d {
            n - 0x20_0000_0000_0000 * d + 1
        } else {
            0
        }),
{
    if d <= 0 || n < 0x20_0000_0000_0000 * d {
        1
    } else {
        2 * scale_down(n, 2 * d)
    }
}

/// The number with 53 significant binary digits that is nearest to the
/// fraction `n / d`, as a numerator and a denominator. The fraction is
/// scaled by a power of two to 53 digits before the point, rounded to the
/// nearest whole number with halves to the even one, and scaled back.
/// Zero stays zero.
pub open spec fn nearest_binary64(n: int, d: int) -> (int, int) {
    if n <= 0 || d <= 0 {
        (0, 1)
    } else {
        let up = scale_up(n, d);
        let down = scale_down(n, d);
        (nearest_even_quotient(n * up, d * down) * down, up)
    }
}

/// The factor that scales a fraction up is the one power of two that
/// brings it to 53 binary digits before the point: to at least two to the
/// power of 52 and below two to the power of 53.
pub proof fn lemma_scale_up_is(n: int, d: int, k: nat)
    requires
        n > 0,
        d > 0,
        0x10_0000_0000_0000 * d <= n * pow2(k) < 0x20_0000_0000_0000 * d,
    ensures
        scale_up(n, d) == pow2(k),
        k > 0 ==> scale_down(n, d) == 1,
    decreases k,
{
    if k == 0 {
        assert(pow2(0) == 1) by {
            vstd::arithmetic::power2::lemma2_to64();
        }
        assert(n * 1 == n) by (nonlinear_arith);
    } else {
        let rest = pow2((k - 1) as nat);
        lemma_pow2_unfold(k);
        lemma_pow2_pos((k - 1) as nat);
        assert(n * (2 * rest) == (2 * n) * rest && 2 * n <= (2 * n) * rest) by (nonlinear_arith)
            requires
                rest >= 1,
                n > 0,
        ;
        lemma_scale_up_is(2 * n, d, (k - 1) as nat);
    }
}

/// The factor that scales a fraction down is the one power of two that
/// brings it to 53 binary digits before the point.
pub proof fn lemma_scale_down_is(n: int, d: int, k: nat)
    requires
        n > 0,
        d > 0,
        0x10_0000_0000_0000 * (d * pow2(k)) <= n < 0x20_0000_0000_0000 * (d * pow2(k)),
    ensures
        scale_down(n, d) == pow2(k),
        k > 0 ==> scale_up(n, d) == 1,
    decreases k,
{
    if k == 0 {
        assert(pow2(0) == 1) by {
            vstd::arithmetic::power2::lemma2_to64();
        }
        assert(d * 1 == d) by (nonlinear_arith);
    } else {
        let rest = pow2((k - 1) as nat);
        lemma_pow2_unfold(k);
        lemma_pow2_pos((k - 1) as nat);
        assert(d * (2 * rest) == (2 * d) * rest && 2 * d <= (2 * d) * rest) by (nonlinear_arith)
            requires
                rest >= 1,
                d > 0,
        ;
        lemma_scale_down_is(n, 2 * d, (k - 1) as nat);
    }
}

/// The nearest number with 53 significant binary digits, found from its
/// parts: `n / d` times two to the power of `up` and divided by two to the
/// power of `down`, of which one is zero, has 53 binary digits before the
/// point, and `m` is the whole number nearest to it, the even one at a
/// half. Then the nearest number is `m` times two to the power of `down`
/// over two to the power of `up`.
pub proof fn lemma_nearest_binary64_is(n: int, d: int, up: nat, down: nat, m: int)
    requires
        n > 0,
        d > 0,
        up == 0 || down == 0,
        0x10_0000_0000_0000 * (d * pow2(down)) <= n * pow2(up) < 0x20_0000_0000_0000 * (d
            * pow2(down)),
        (-(d * pow2(down)) < 2 * (m * (d * pow2(down)) - n * pow2(up)) < d * pow2(down)) || ((2
            * (m * (d * pow2(down)) - n * pow2(up)) == d * pow2(down) || 2 * (n * pow2(up) - m
            * (d * pow2(down))) == d * pow2(down)) && m % 2 == 0),
    ensures
        nearest_binary64(n, d) == (m * pow2(down), pow2(up) as int),
{
    assert(pow2(0) == 1) by {
        vstd::arithmetic::power2::lemma2_to64();
    }
    assert(n * 1 == n && d * 1 == d) by (nonlinear_arith);
    if down == 0 {
        lemma_scale_up_is(n, d, up);
    } else {
        lemma_scale_down_is(n, d, down);
    }
    lemma_pow2_pos(up);
    lemma_pow2_pos(down);
    assert(n * pow2(up) >= 0 && d * pow2(down) > 0) by (nonlinear_arith)
        requires
            n > 0,
            d > 0,
            pow2(up) > 0,
            pow2(down) > 0,
    ;
    lemma_nearest_even_quotient_is(n * pow2(up), d * pow2(down), m);
}

/// Rounds the fraction `n / d` to the nearest number with 53 significant
/// binary digits, halves to the even one.
pub fn round_to_binary64(n: u128, d: u128) -> (r: Ratio)
    requires
        0 < d < 0x400_0000_0000_0000_0000,
        n < 0x400_0000_0000_0000_0000,
    ensures
        r.parts() == nearest_binary64(n as int, d as int),
        r.den >= 1,
        n > 0 ==> r.num >= 0x10_0000_0000_0000,
        r.num <= 0x20_0000_0000_0000 || r.num <= 2 * n,
        r.den == 1 || r.den * n < 0x20_0000_0000_0000 * d,
{
    if n == 0 {
        return Ratio { num: 0, den: 1 };
    }
    if n < 0x10_0000_0000_0000 * d {
        let mut scaled = n;
        let mut factor: u128 = 1;
        while scaled < 0x10_0000_0000_0000 * d
            invariant
                0 < d < 0x400_0000_0000_0000_0000,
                0 < n,
                1 <= factor <= scaled,
                scaled == n * factor,
                scaled < 0x20_0000_0000_0000 * d,
                scale_up(n as int, d as int) == factor * scale_up(scaled as int, d as int),
            decreases
                (if 0x10_0000_0000_0000 * d > scaled {
                    0x10_0000_0000_0000 * d - scaled
                } else {
                    0
                }),
        {
            proof {
                let rest = scale_up(2 * scaled, d as int);
                assert(factor * (2 * rest) == (2 * factor) * rest) by (nonlinear_arith);
                assert(2 * (n * factor) == n * (2 * factor)) by (nonlinear_arith);
            }
            scaled = scaled * 2;
            factor = factor * 2;
        }
        proof {
            lemma_nearest_even_quotient_bounds(
                scaled as int,
                d as int,
                0x10_0000_0000_0000int,
                0x20_0000_0000_0000int,
            );
            assert(factor * 1 == factor) by (nonlinear_arith);
            assert(d * 1 == d) by (nonlinear_arith);
            assert(factor * n == n * factor) by (nonlinear_arith);
        }
        let mantissa = round_div_even(scaled, d);
        Ratio { num: mantissa, den: factor }
    } else {
        let mut scaled = d;
        let mut factor: u128 = 1;
        while n >= 0x20_0000_0000_0000 * scaled
            invariant
                0 < d,
                n < 0x400_0000_0000_0000_0000,
                1 <= factor <= scaled,
                scaled == d * factor,
                0x10_0000_0000_0000 * scaled <= n,
                scale_down(n as int, d as int) == factor * scale_down(n as int, scaled as int),
            decreases
                (if n >= 0x20_0000_0000_0000 * scaled {
                    n - 0x20_0000_0000_0000 * scaled + 1
                } else {
                    0
                }),
        {
            proof {
                let rest = scale_down(n as int, 2 * scaled);
                assert(factor * (2 * rest) == (2 * factor) * rest) by (nonlinear_arith);
                assert(2 * (d * factor) == d * (2 * factor)) by (nonlinear_arith);
            }
            scaled = scaled * 2;
            factor = factor * 2;
        }
        proof {
            lemma_nearest_even_quotient_bounds(
                n as int,
                scaled as int,
                0x10_0000_0000_0000int,
                0x20_0000_0000_0000int,
            );
            assert(factor * 1 == factor) by (nonlinear_arith);
            assert(n * 1 == n) by (nonlinear_arith);
        }
        let mantissa = round_div_even(n, scaled);
        assert(mantissa * factor <= 2 * n && mantissa * factor >= 0x10_0000_0000_0000) by (nonlinear_arith)
            requires
                mantissa * scaled <= n + scaled,
                0x10_0000_0000_0000 * scaled <= n,
                1 <= factor <= scaled,
                mantissa >= 0x10_0000_0000_0000,
        ;
        Ratio { num: mantissa * factor, den: 1 }
    }
}

} // verus!
