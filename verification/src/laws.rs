//! What holds of every quadrilateral that is planned and solved.

use vstd::prelude::*;
use crate::angles::{
    distance_from_full_turn,
    interior_of,
    is_full_turn,
    lemma_completed_angles_sum_to_full_turn,
};
use crate::closure::{lemma_tolerance_values, within_tolerance};
use crate::error::SolveError;
use crate::ident::{Side, Vertex};
use crate::measures::{AngleSet, Lengths, SideSet, SignedAngles};
use crate::quadrilateral::Quadrilateral;
use crate::solver::{Placement, Plan};
use crate::strategy::{
    lemma_chosen_is_first_that_fits,
    lemma_four_sides_always_chosen,
    lemma_lone_angle_goes_by_circles,
    Strategy,
};

verus! {

/// Among three or four known angles there are two at the ends of one side.
pub proof fn lemma_three_angles_hold_a_pair(angles: AngleSet)
    requires
        angles.count() >= 3,
    ensures
        angles.has_adjacent_pair(),
{
    if angles.a is Some && angles.b is Some {
        assert(angles.has_pair_at(Vertex::A));
    } else if angles.b is Some && angles.c is Some {
        assert(angles.has_pair_at(Vertex::B));
    } else {
        assert(angles.has_pair_at(Vertex::C));
    }
}

/// A plan never fails for a reason other than these: too little is known,
/// the kind of the failure then being decided before any angle is looked
/// at; the angle sum is violated; or no construction fits, which happens
/// only with three known sides.
pub proof fn lemma_plan_failures(q: Quadrilateral)
    ensures
        !q.is_solvable() <==> q.planned() == Err::<Plan, SolveError>(q.shortfall()),
        q.planned() matches Err(SolveError::AngleSumInvalid { .. }) ==> q.angles.count() == 4,
        q.planned() matches Err(SolveError::InvalidDerivedAngle { .. }) ==> q.angles.count() == 3,
        q.planned() == Err::<Plan, SolveError>(SolveError::UnsupportedCombination)
            ==> q.sides.count() == 3,
        !(q.planned() matches Err(SolveError::GeometricConflict)),
        !(q.planned() matches Err(SolveError::ClosureMismatch { .. })),
{
    if q.is_solvable() {
        match q.angles.completed() {
            Ok(angles) => {
                if q.sides.count() == 4 {
                    lemma_completion_keeps_known(q.angles);
                    lemma_four_sides_always_chosen(q.sides, angles);
                }
            },
            Err(_) => {},
        }
    }
}

/// The angle sum takes no known angle away and changes none.
pub proof fn lemma_completion_keeps_known(angles: AngleSet)
    requires
        angles.completed() is Ok,
    ensures
        ({
            let done = angles.completed()->Ok_0;
            &&& done.count() >= angles.count()
            &&& forall|v: Vertex| angles.has(v) ==> done.of(v) == angles.of(v)
        }),
{
}

/// A plan is made for a construction that fits the known sides and the
/// angles after the angle sum, and for the first such construction. It
/// carries the sides as they are known.
pub proof fn lemma_plan_fits(q: Quadrilateral)
    requires
        q.planned() is Ok,
    ensures
        ({
            let plan = q.planned()->Ok_0;
            &&& q.is_solvable()
            &&& plan.sides == q.sides
            &&& q.angles.completed() == Ok::<AngleSet, SolveError>(plan.angles)
            &&& plan.strategy.fits(plan.sides, plan.angles)
            &&& forall|t: Strategy|
                t.rank() < plan.strategy.rank() ==> !t.fits(plan.sides, plan.angles)
        }),
{
    let angles = q.angles.completed()->Ok_0;
    lemma_chosen_is_first_that_fits(q.sides, angles);
}

/// A solved shape is complete: every side and every angle has a value.
/// What was known keeps its value, and the lengths are those that were
/// measured.
pub proof fn lemma_solved_is_complete(q: Quadrilateral, placement: Placement)
    requires
        q.solved(placement) is Ok,
    ensures
        ({
            let shape = q.solved(placement)->Ok_0;
            &&& shape.is_complete()
            &&& placement matches Placement::Placed { lengths, .. } && shape.lengths == lengths
            &&& forall|s: Side| q.sides.has(s) ==> shape.sides.of(s) == q.sides.of(s)
            &&& forall|v: Vertex| q.angles.has(v) ==> shape.angles.of(v) == q.angles.of(v)
        }),
{
    lemma_plan_fits(q);
    lemma_completion_keeps_known(q.angles);
    let plan = q.planned()->Ok_0;
    let shape = q.solved(placement)->Ok_0;
    assert(plan.strategy.side_fits(plan.sides, Side::AB));
    assert(plan.strategy.side_fits(plan.sides, Side::BC));
    assert(plan.strategy.side_fits(plan.sides, Side::CD));
    assert(plan.strategy.side_fits(plan.sides, Side::DA));
    assert forall|v: Vertex| q.angles.has(v) implies shape.angles.of(v) == q.angles.of(v) by {
        assert(plan.angles.of(v) == q.angles.of(v));
    }
}

/// In a solved shape that was constructed from two angles, the measured
/// length of the closing side agrees with the length that the shape holds
/// for that side: within the tolerance where the length was given, and
/// exactly where it was not.
pub proof fn lemma_closing_side_agrees(q: Quadrilateral, placement: Placement)
    requires
        q.solved(placement) is Ok,
        q.planned()->Ok_0.strategy.closing_side() is Some,
    ensures
        ({
            let shape = q.solved(placement)->Ok_0;
            let side = q.planned()->Ok_0.strategy.closing_side()->0;
            &&& shape.sides.of(side) matches Some(held) && within_tolerance(
                shape.lengths.of(side) as int,
                held as int,
            )
            &&& !q.sides.has(side) ==> shape.sides.of(side) == Some(shape.lengths.of(side))
        }),
{
    let side = q.planned()->Ok_0.strategy.closing_side()->0;
    if !q.sides.has(side) {
        lemma_tolerance_values(placement->lengths.of(side) as int);
    }
}

/// With all four sides known, at least one angle, and no two known angles
/// at the ends of one side, solving succeeds whenever the two circles meet,
/// whatever was measured, and fails with a geometric conflict when they do
/// not. The construction is the one on circles for the first known angle,
/// no side is checked, and the sides stay as they were given.
pub proof fn lemma_lone_angle_is_solved(q: Quadrilateral, lengths: Lengths, angles: SignedAngles)
    requires
        q.sides.count() == 4,
        q.angles.count() >= 1,
        !q.angles.has_adjacent_pair(),
    ensures
        q.planned() matches Ok(plan) && plan.strategy.by_circles() && plan.angles == q.angles
            && q.angles.has(plan.strategy.anchor()) && forall|v: Vertex|
            v.rank() < plan.strategy.anchor().rank() ==> !q.angles.has(v),
        q.solved(Placement::Placed { lengths, angles }) matches Ok(shape) && shape.sides
            == q.sides && shape.lengths == lengths,
        q.solved(Placement::Disjoint) == Err::<Quadrilateral, SolveError>(
            SolveError::GeometricConflict,
        ),
{
    if q.angles.count() >= 3 {
        lemma_three_angles_hold_a_pair(q.angles);
    }
    lemma_lone_angle_goes_by_circles(q.sides, q.angles);
}

/// Where three or four angles are known, the four angles of the solved
/// shape sum to 360 degrees within half a degree.
pub proof fn lemma_known_angles_sum_to_full_turn(q: Quadrilateral, placement: Placement)
    requires
        q.angles.count() >= 3,
        q.solved(placement) is Ok,
    ensures
        is_full_turn(q.solved(placement)->Ok_0.angles.total()),
{
    lemma_completed_angles_sum_to_full_turn(q.angles);
}

/// The sum of the interior angles of a measurement.
pub open spec fn measured_total(angles: SignedAngles) -> int {
    interior_of(angles.a as int) + interior_of(angles.b as int) + interior_of(angles.c as int)
        + interior_of(angles.d as int)
}

/// How far the angle that a solved shape holds at a vertex lies from the
/// interior angle that was measured there.
pub open spec fn departure_at(held: Option<i64>, signed: i64) -> int {
    match held {
        Some(v) => if v >= interior_of(signed as int) {
            v - interior_of(signed as int)
        } else {
            interior_of(signed as int) - v
        },
        None => 0,
    }
}

/// The angle sum of a solved shape follows the measurement: it lies no
/// farther from 360 degrees than the sum of the measured interior angles
/// does, plus what the angles of the plan depart from the measured ones.
/// Where the placed vertices show the planned angles and close to a full
/// turn, so does the solved shape; an angle that was not known departs by
/// nothing.
pub proof fn lemma_angle_sum_follows_measurement(
    q: Quadrilateral,
    lengths: Lengths,
    angles: SignedAngles,
)
    requires
        q.solved(Placement::Placed { lengths, angles }) is Ok,
    ensures
        ({
            let plan = q.planned()->Ok_0;
            let shape = q.solved(Placement::Placed { lengths, angles })->Ok_0;
            let departure = departure_at(plan.angles.a, angles.a) + departure_at(
                plan.angles.b,
                angles.b,
            ) + departure_at(plan.angles.c, angles.c) + departure_at(plan.angles.d, angles.d);
            &&& distance_from_full_turn(shape.angles.total()) <= distance_from_full_turn(
                measured_total(angles),
            ) + departure
            &&& departure == 0 && is_full_turn(measured_total(angles)) ==> is_full_turn(
                shape.angles.total(),
            )
        }),
{
}

/// Solving depends on the known sides and angles and on the outcome of
/// the construction, and on nothing else: two quadrilaterals with the same
/// sides and angles get the same plan and, for the same outcome, the same
/// solved shape or the same error.
pub proof fn lemma_solving_is_determined(a: Quadrilateral, b: Quadrilateral, placement: Placement)
    requires
        a.sides == b.sides,
        a.angles == b.angles,
    ensures
        a.planned() == b.planned(),
        a.solved(placement) == b.solved(placement),
{
}

} // verus!
