//! The ways in which solving a quadrilateral can fail.

use vstd::prelude::*;
use crate::ident::Side;

verus! {

/// Why a quadrilateral could not be solved. Every failure ends the attempt;
/// nothing is retried.
#[derive(Clone, Copy, Debug, PartialEq, Eq)]
pub enum SolveError {
    /// Too few sides or angles are known, or three sides are known and no
    /// two known angles lie at the ends of one side.
    InsufficientConstraints { sides_given: usize, angles_given: usize },
    /// Four angles are known and their sum, in microdegrees, is more than
    /// half a degree away from 360 degrees.
    AngleSumInvalid { sum_udeg: i128 },
    /// Three angles are known and the fourth, in microdegrees, would not lie
    /// strictly between 0 and 360 degrees.
    InvalidDerivedAngle { value_udeg: i128 },
    /// The known values are enough in number but no construction exists for
    /// this combination. A construction exists for four sides with at least
    /// one angle, and for some cases of three sides with two adjacent angles.
    UnsupportedCombination,
    /// The two circles on which the fourth vertex must lie have no point in
    /// common: the side lengths do not fit together.
    GeometricConflict,
    /// The side that joins the two chains of the construction came out with
    /// another length than the one given for it.
    ClosureMismatch {
        side: Side,
        computed_um: i64,
        expected_um: i64,
        /// The deviation relative to the expected length, in hundredths of a
        /// percent, where the expected length is positive.
        deviation_basis_points: Option<u128>,
    },
}

} // verus!
