//! Solving a quadrilateral.
//!
//! Solving has two halves with the placement of the vertices between them.
//! The first half checks that enough is known, applies the angle sum and
//! chooses the construction: that is the [`Plan`]. The caller carries the
//! construction out and reports what came of it as a [`Placement`]. The
//! second half checks the closing side against its given length and fills
//! in what was not known.

use vstd::prelude::*;
use crate::closure::{length_check, validate_length_um};
use crate::error::SolveError;
use crate::measures::{AngleSet, Lengths, SideSet, SignedAngles};
use crate::quadrilateral::Quadrilateral;
use crate::strategy::Strategy;

verus! {

/// What is to be constructed: the construction, and the sides and angles
/// that go into it. The angles are those after the angle sum was applied.
#[derive(Clone, Copy, Debug, PartialEq, Eq)]
pub struct Plan {
    pub strategy: Strategy,
    pub sides: SideSet,
    pub angles: AngleSet,
}

/// What came of carrying out a construction.
#[derive(Clone, Copy, Debug, PartialEq, Eq)]
pub enum Placement {
    /// All four vertices were placed. `lengths` are the distances between
    /// neighbouring vertices, `angles` the signed angles at the vertices.
    Placed { lengths: Lengths, angles: SignedAngles },
    /// The two circles on which the fourth vertex must lie do not meet.
    Disjoint,
}

impl Quadrilateral {
    /// The plan for what is known, or the reason why there is none.
    pub open spec fn planned(self) -> Result<Plan, SolveError> {
        if !self.is_solvable() {
            Err(self.shortfall())
        } else {
            match self.angles.completed() {
                Err(e) => Err(e),
                Ok(angles) => match Strategy::chosen(self.sides, angles) {
                    None => Err(SolveError::UnsupportedCombination),
                    Some(strategy) => Ok(Plan { strategy, sides: self.sides, angles }),
                },
            }
        }
    }

    /// The solved shape for what is known and what the construction gave,
    /// or the reason why there is none.
    pub open spec fn solved(self, placement: Placement) -> Result<Quadrilateral, SolveError> {
        match self.planned() {
            Err(e) => Err(e),
            Ok(plan) => plan.resolved(placement),
        }
    }

    /// Checks that enough is known, applies the angle sum and chooses the
    /// construction. The quadrilateral itself does not change.
    pub fn plan(&self) -> (r: Result<Plan, SolveError>)
        ensures
            r == self.planned(),
    {
        if !self.solvable() {
            return Err(
                SolveError::InsufficientConstraints {
                    sides_given: self.sides.given(),
                    angles_given: self.angles.given(),
                },
            );
        }
        let angles = match self.angles.complete() {
            Ok(angles) => angles,
            Err(e) => {
                return Err(e);
            },
        };
        match Strategy::select(&self.sides, &angles) {
            Some(strategy) => Ok(Plan { strategy, sides: self.sides, angles }),
            None => Err(SolveError::UnsupportedCombination),
        }
    }

    /// Solves the quadrilateral with the outcome of the construction that
    /// [`Quadrilateral::plan`] names. On success every side and every angle
    /// has a value afterwards. On failure the quadrilateral is as it was.
    pub fn calculate(&mut self, placement: &Placement) -> (r: Result<(), SolveError>)
        ensures
            match old(self).solved(*placement) {
                Ok(shape) => r is Ok && *final(self) == shape,
                Err(e) => r == Err::<(), SolveError>(e) && *final(self) == *old(self),
            },
    {
        let plan = match self.plan() {
            Ok(plan) => plan,
            Err(e) => {
                return Err(e);
            },
        };
        match plan.resolve(placement) {
            Ok(shape) => {
                *self = shape;
                Ok(())
            },
            Err(e) => Err(e),
        }
    }
}

impl Plan {
    /// The sides after the closing side was dealt with: a given closing
    /// side must agree with its measured length, and one that is not given
    /// takes the measured length. A construction on circles has no closing
    /// side and leaves the sides as they are.
    pub open spec fn closed_sides(self, lengths: Lengths) -> Result<SideSet, SolveError> {
        match self.strategy.closing_side() {
            None => Ok(self.sides),
            Some(side) => match self.sides.of(side) {
                None => Ok(self.sides.with(side, Some(lengths.of(side)))),
                Some(expected) => match length_check(side, lengths.of(side), expected) {
                    Ok(_) => Ok(self.sides),
                    Err(e) => Err(e),
                },
            },
        }
    }

    /// The solved shape that the plan and the outcome of its construction
    /// give, or the reason why there is none.
    pub open spec fn resolved(self, placement: Placement) -> Result<Quadrilateral, SolveError> {
        match placement {
            Placement::Disjoint => Err(SolveError::GeometricConflict),
            Placement::Placed { lengths, angles } => match self.closed_sides(lengths) {
                Err(e) => Err(e),
                Ok(sides) => Ok(
                    Quadrilateral { sides, angles: self.angles.filled_from(angles), lengths },
                ),
            },
        }
    }

    /// Deals with the closing side of the construction.
    pub fn close(&self, lengths: &Lengths) -> (r: Result<SideSet, SolveError>)
        ensures
            r == self.closed_sides(*lengths),
    {
        match self.strategy.closing() {
            None => Ok(self.sides),
            Some(side) => {
                let measured = lengths.get(side);
                match self.sides.get(side) {
                    None => {
                        let mut sides = self.sides;
                        sides.set(side, Some(measured));
                        Ok(sides)
                    },
                    Some(expected) => match validate_length_um(side, measured, expected) {
                        Ok(_) => Ok(self.sides),
                        Err(e) => Err(e),
                    },
                }
            },
        }
    }

    /// Turns the outcome of the construction into the solved shape: fails
    /// where the circles did not meet or the closing side does not agree,
    /// and otherwise fills in the closing side and the unknown angles.
    pub fn resolve(&self, placement: &Placement) -> (r: Result<Quadrilateral, SolveError>)
        ensures
            r == self.resolved(*placement),
    {
        match placement {
            Placement::Disjoint => Err(SolveError::GeometricConflict),
            Placement::Placed { lengths, angles } => {
                let sides = match self.close(lengths) {
                    Ok(sides) => sides,
                    Err(e) => {
                        return Err(e);
                    },
                };
                Ok(Quadrilateral { sides, angles: self.angles.fill_from(angles), lengths: *lengths })
            },
        }
    }
}

} // verus!
