//! The quadrilateral as it is described by its measurements.

use vstd::prelude::*;
use crate::error::SolveError;
use crate::ident::{Side, Vertex};
use crate::measures::{AngleSet, Lengths, SideSet, SignedAngles};
use crate::strategy::Strategy;

verus! {

/// A quadrilateral with the vertices A, B, C, D.
///
/// It starts with nothing known. Its sides and angles are then set as far
/// as they were measured, and solving fills in the rest. `lengths` holds
/// the side lengths as they were last measured between the placed
/// vertices; they are zero as long as the shape has not been solved.
#[derive(Clone, Copy, Debug, PartialEq, Eq)]
pub struct Quadrilateral {
    /// The known side lengths in micrometers.
    pub sides: SideSet,
    /// The known interior angles in microdegrees.
    pub angles: AngleSet,
    /// The side lengths between the placed vertices in micrometers.
    pub lengths: Lengths,
}

impl Quadrilateral {
    /// The quadrilateral of which nothing is known.
    pub open spec fn blank() -> Quadrilateral {
        Quadrilateral { sides: SideSet::none(), angles: AngleSet::none(), lengths: Lengths::zero() }
    }

    /// Whether enough is known to solve the shape: all four sides and at
    /// least one angle, or three sides and at least two angles of which two
    /// lie at the ends of one side.
    pub open spec fn is_solvable(self) -> bool {
        ||| self.sides.count() == 4 && self.angles.count() >= 1
        ||| self.sides.count() == 3 && self.angles.count() >= 2
            && self.angles.has_adjacent_pair()
    }

    /// The error that reports how little is known.
    pub open spec fn shortfall(self) -> SolveError {
        SolveError::InsufficientConstraints {
            sides_given: self.sides.count() as usize,
            angles_given: self.angles.count() as usize,
        }
    }

    /// Whether every side and every angle has a value.
    pub open spec fn is_complete(self) -> bool {
        self.sides.count() == 4 && self.angles.count() == 4
    }

    /// The length between the placed vertices of the side with the given
    /// number, and zero for a number that names no side.
    pub open spec fn measured_length(self, side: int) -> i64 {
        if 0 <= side < 4 {
            self.lengths.of(Side::at(side))
        } else {
            0
        }
    }

    /// Creates a quadrilateral of which nothing is known.
    pub fn new() -> (q: Quadrilateral)
        ensures
            q == Quadrilateral::blank(),
    {
        Quadrilateral {
            sides: SideSet::empty(),
            angles: AngleSet::empty(),
            lengths: Lengths { ab: 0, bc: 0, cd: 0, da: 0 },
        }
    }

    /// Forgets all sides and all angles. The measured lengths stay.
    pub fn reset(&mut self)
        ensures
            final(self).sides == SideSet::none(),
            final(self).angles == AngleSet::none(),
            final(self).lengths == old(self).lengths,
    {
        self.sides = SideSet::empty();
        self.angles = AngleSet::empty();
    }

    /// Sets the length of one side in micrometers.
    pub fn set_side_um(&mut self, side: Side, um: i64)
        ensures
            final(self).sides == old(self).sides.with(side, Some(um)),
            final(self).angles == old(self).angles,
            final(self).lengths == old(self).lengths,
    {
        self.sides.set(side, Some(um));
    }

    /// Sets the angle at one vertex in microdegrees, or clears it.
    pub fn set_angle(&mut self, vertex: Vertex, udeg: Option<i64>)
        ensures
            final(self).angles == old(self).angles.with(vertex, udeg),
            final(self).sides == old(self).sides,
            final(self).lengths == old(self).lengths,
    {
        self.angles.set(vertex, udeg);
    }

    /// The known length of one side in micrometers.
    pub fn get_side_um(&self, side: Side) -> (um: Option<i64>)
        ensures
            um == self.sides.of(side),
    {
        self.sides.get(side)
    }

    /// The known angle at one vertex in microdegrees.
    pub fn get_angle(&self, vertex: Vertex) -> (udeg: Option<i64>)
        ensures
            udeg == self.angles.of(vertex),
    {
        self.angles.get(vertex)
    }

    /// The length of a side between the placed vertices, in micrometers.
    /// The sides are numbered 0 for AB to 3 for DA; any other number gives
    /// zero.
    pub fn get_side_length_um(&self, side: usize) -> (um: i64)
        ensures
            um == self.measured_length(side as int),
    {
        match Side::from_index(side) {
            Some(s) => self.lengths.get(s),
            None => 0,
        }
    }

    /// How many sides are known.
    pub fn sides_given(&self) -> (n: usize)
        ensures
            n == self.sides.count(),
    {
        self.sides.given()
    }

    /// How many angles are known.
    pub fn angles_given(&self) -> (n: usize)
        ensures
            n == self.angles.count(),
    {
        self.angles.given()
    }

    /// Whether the angles at the two ends of some side are both known.
    pub fn has_adjacent_angles(&self) -> (b: bool)
        ensures
            b == self.angles.has_adjacent_pair(),
    {
        self.angles.has_adjacent_angles()
    }

    /// Whether enough is known to solve the shape.
    pub fn solvable(&self) -> (b: bool)
        ensures
            b == self.is_solvable(),
    {
        let sides = self.sides.given();
        let angles = self.angles.given();
        if sides == 4 {
            angles >= 1
        } else if sides == 3 {
            angles >= 2 && self.angles.has_adjacent_angles()
        } else {
            false
        }
    }

    /// Applies the angle sum to the known angles. On success a fourth angle
    /// that three known angles determine is set; on failure nothing
    /// changes.
    pub fn calculate_missing_angles(&mut self) -> (r: Result<(), SolveError>)
        ensures
            match old(self).angles.completed() {
                Ok(angles) => r is Ok && final(self).angles == angles,
                Err(e) => r == Err::<(), SolveError>(e) && final(self).angles == old(self).angles,
            },
            final(self).sides == old(self).sides,
            final(self).lengths == old(self).lengths,
    {
        match self.angles.complete() {
            Ok(angles) => {
                self.angles = angles;
                Ok(())
            },
            Err(e) => Err(e),
        }
    }

    /// Chooses the construction for what is known: the first in the fixed
    /// order that fits. Where none fits the combination is not supported.
    pub fn construct_quadrilateral(&self) -> (r: Result<Strategy, SolveError>)
        ensures
            match Strategy::chosen(self.sides, self.angles) {
                Some(s) => r == Ok::<Strategy, SolveError>(s),
                None => r == Err::<Strategy, SolveError>(SolveError::UnsupportedCombination),
            },
    {
        match Strategy::select(&self.sides, &self.angles) {
            Some(s) => Ok(s),
            None => Err(SolveError::UnsupportedCombination),
        }
    }

    /// Sets every angle that is not known to the interior angle of the one
    /// measured at its vertex. Known angles, sides and lengths stay.
    pub fn calculate_angles_from_vertices(&mut self, measured: &SignedAngles)
        ensures
            final(self).angles == old(self).angles.filled_from(*measured),
            final(self).sides == old(self).sides,
            final(self).lengths == old(self).lengths,
    {
        self.angles = self.angles.fill_from(measured);
    }
}

} // verus!
