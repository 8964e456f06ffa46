//! The check of a measured length against the length that was given.

use vstd::prelude::*;
use crate::error::SolveError;
use crate::ident::Side;
use crate::rounding::{nearest_quotient, round_div};

verus! {

/// How far a measured length may lie from an expected length, both in
/// micrometers: one thousandth of the expected length, rounded to the
/// nearest micrometer, and at least one micrometer.
pub open spec fn tolerance(expected: int) -> int {
    let share = nearest_quotient(expected, 1000);
    if share > 1 {
        share
    } else {
        1
    }
}

/// The distance between two lengths.
pub open spec fn deviation(computed: int, expected: int) -> int {
    if computed >= expected {
        computed - expected
    } else {
        expected - computed
    }
}

/// Whether a measured length agrees with the expected one.
pub open spec fn within_tolerance(computed: int, expected: int) -> bool {
    deviation(computed, expected) <= tolerance(expected)
}

/// The deviation as a share of the expected length, in hundredths of a
/// percent and rounded to the nearest. An expected length that is not
/// positive has no such share.
pub open spec fn deviation_basis_points(computed: int, expected: int) -> Option<u128> {
    if expected > 0 {
        Some(nearest_quotient(deviation(computed, expected) * 10000, expected) as u128)
    } else {
        None
    }
}

/// The error that reports a side whose measured length does not agree.
pub open spec fn mismatch(side: Side, computed: i64, expected: i64) -> SolveError {
    SolveError::ClosureMismatch {
        side,
        computed_um: computed,
        expected_um: expected,
        deviation_basis_points: deviation_basis_points(computed as int, expected as int),
    }
}

/// The outcome of checking one side.
pub open spec fn length_check(side: Side, computed: i64, expected: i64) -> Result<(), SolveError> {
    if within_tolerance(computed as int, expected as int) {
        Ok(())
    } else {
        Err(mismatch(side, computed, expected))
    }
}

/// The tolerance is one micrometer up to an expected length of 1499
/// micrometers, and from there on the expected length with 500 added,
/// divided by 1000 and rounded down.
pub proof fn lemma_tolerance_values(expected: int)
    ensures
        expected < 1500 ==> tolerance(expected) == 1,
        expected >= 1500 ==> tolerance(expected) == (expected + 500) / 1000,
        tolerance(expected) >= 1,
{
    if expected >= 0 {
        assert((2 * expected + 1000) / 2000 == (expected + 500) / 1000);
    }
}

/// The tolerance in micrometers for an expected length.
pub fn tolerance_um(expected_um: i64) -> (t: i64)
    ensures
        t == tolerance(expected_um as int),
        t >= 1,
{
    if expected_um < 1500 {
        proof {
            lemma_tolerance_values(expected_um as int);
        }
        1
    } else {
        let share = round_div(expected_um as u128, 1000);
        assert(share == (expected_um as int + 500) / 1000) by {
            lemma_tolerance_values(expected_um as int);
        }
        share as i64
    }
}

/// The distance between two lengths in micrometers.
pub fn deviation_um(computed_um: i64, expected_um: i64) -> (d: u64)
    ensures
        d == deviation(computed_um as int, expected_um as int),
{
    if computed_um >= expected_um {
        (computed_um as i128 - expected_um as i128) as u64
    } else {
        (expected_um as i128 - computed_um as i128) as u64
    }
}

/// Checks the measured length of a side against the length that was given
/// for it. The check passes exactly when the two differ by no more than the
/// tolerance; otherwise the error names the side, both lengths and the
/// relative deviation.
pub fn validate_length_um(side: Side, calculated_um: i64, expected_um: i64) -> (r: Result<
    (),
    SolveError,
>)
    ensures
        r == length_check(side, calculated_um, expected_um),
{
    let diff = deviation_um(calculated_um, expected_um);
    let allowed = tolerance_um(expected_um);
    if diff > allowed as u64 {
        let share = if expected_um > 0 {
            assert(diff as int * 10000 <= u128::MAX);
            Some(round_div(diff as u128 * 10000, expected_um as u128))
        } else {
            None
        };
        Err(
            SolveError::ClosureMismatch {
                side,
                computed_um: calculated_um,
                expected_um,
                deviation_basis_points: share,
            },
        )
    } else {
        Ok(())
    }
}

} // verus!
