//! The rules on angles: the angle sum of a quadrilateral, and the interior
//! angle that belongs to a measured signed angle.

use vstd::prelude::*;
use crate::error::SolveError;
use crate::ident::Vertex;
use crate::measures::{
    AngleSet,
    SignedAngles,
    ANGLE_SUM_SLACK_UDEG,
    FULL_TURN_UDEG,
    HALF_TURN_UDEG,
};

verus! {

/// How far a sum of angles lies from a full turn.
pub open spec fn distance_from_full_turn(sum: int) -> int {
    if sum >= FULL_TURN_UDEG {
        sum - FULL_TURN_UDEG
    } else {
        FULL_TURN_UDEG - sum
    }
}

/// Whether a sum of four angles counts as a full turn: it lies within half
/// a degree of 360 degrees.
pub open spec fn is_full_turn(sum: int) -> bool {
    distance_from_full_turn(sum) <= ANGLE_SUM_SLACK_UDEG
}

/// The interior angle, between 0 and 180 degrees, that belongs to a signed
/// angle: the signed angle is brought into the range from 0 up to, and not
/// including, 360 degrees, and an angle of more than 180 degrees is replaced
/// by what it lacks to 360.
pub open spec fn interior_of(signed: int) -> int {
    let turned = signed % (FULL_TURN_UDEG as int);
    if turned > HALF_TURN_UDEG {
        FULL_TURN_UDEG - turned
    } else {
        turned
    }
}

impl AngleSet {
    /// The angles after the angle sum has been applied.
    ///
    /// Four known angles must sum to a full turn within half a degree.
    /// Three known angles determine the fourth as what their sum lacks to
    /// 360 degrees, which must lie strictly between 0 and 360 degrees; it
    /// becomes the angle of the one vertex that had none. Two or fewer
    /// known angles stay as they are.
    pub open spec fn completed(self) -> Result<AngleSet, SolveError> {
        if self.count() == 4 {
            if is_full_turn(self.total()) {
                Ok(self)
            } else {
                Err(SolveError::AngleSumInvalid { sum_udeg: self.total() as i128 })
            }
        } else if self.count() == 3 {
            let missing = FULL_TURN_UDEG - self.total();
            if 0 < missing < FULL_TURN_UDEG {
                Ok(self.with(self.first_unset()->0, Some(missing as i64)))
            } else {
                Err(SolveError::InvalidDerivedAngle { value_udeg: missing as i128 })
            }
        } else {
            Ok(self)
        }
    }

    /// The angles with every unknown one filled in from a measurement. A
    /// known angle stays as it is.
    pub open spec fn filled_from(self, measured: SignedAngles) -> AngleSet {
        AngleSet {
            a: Some(AngleSet::kept_or_measured(self.a, measured.a)),
            b: Some(AngleSet::kept_or_measured(self.b, measured.b)),
            c: Some(AngleSet::kept_or_measured(self.c, measured.c)),
            d: Some(AngleSet::kept_or_measured(self.d, measured.d)),
        }
    }

    /// A known angle, or else the interior angle of the measured one.
    pub open spec fn kept_or_measured(known: Option<i64>, signed: i64) -> i64 {
        match known {
            Some(v) => v,
            None => interior_of(signed as int) as i64,
        }
    }

    /// Whether the angles at the two ends of some side are both known.
    pub fn has_adjacent_angles(&self) -> (b: bool)
        ensures
            b == self.has_adjacent_pair(),
    {
        let a = self.a.is_some();
        let b = self.b.is_some();
        let c = self.c.is_some();
        let d = self.d.is_some();
        let found = (a && b) || (b && c) || (c && d) || (d && a);
        proof {
            if a && b {
                assert(self.has_pair_at(Vertex::A));
            } else if b && c {
                assert(self.has_pair_at(Vertex::B));
            } else if c && d {
                assert(self.has_pair_at(Vertex::C));
            } else if d && a {
                assert(self.has_pair_at(Vertex::D));
            } else {
                assert forall|v: Vertex| !self.has_pair_at(v) by {
                    match v {
                        Vertex::A => {},
                        Vertex::B => {},
                        Vertex::C => {},
                        Vertex::D => {},
                    }
                }
            }
        }
        found
    }

    /// The sum of the known angles in microdegrees.
    pub fn sum(&self) -> (s: i128)
        ensures
            s == self.total(),
    {
        let a: i128 = match self.a {
            Some(v) => v as i128,
            None => 0,
        };
        let b: i128 = match self.b {
            Some(v) => v as i128,
            None => 0,
        };
        let c: i128 = match self.c {
            Some(v) => v as i128,
            None => 0,
        };
        let d: i128 = match self.d {
            Some(v) => v as i128,
            None => 0,
        };
        a + b + c + d
    }

    /// The first vertex, in the order A, B, C, D, that has no angle.
    pub fn first_missing(&self) -> (v: Option<Vertex>)
        ensures
            v == self.first_unset(),
            v is None <==> self.count() == 4,
    {
        if self.a.is_none() {
            Some(Vertex::A)
        } else if self.b.is_none() {
            Some(Vertex::B)
        } else if self.c.is_none() {
            Some(Vertex::C)
        } else if self.d.is_none() {
            Some(Vertex::D)
        } else {
            None
        }
    }

    /// Applies the angle sum of a quadrilateral to the known angles: checks
    /// four, derives the fourth from three, and leaves fewer alone.
    pub fn complete(&self) -> (r: Result<AngleSet, SolveError>)
        ensures
            r == self.completed(),
    {
        let given = self.given();
        if given == 4 {
            let sum = self.sum();
            let full = FULL_TURN_UDEG as i128;
            let off = if sum >= full {
                sum - full
            } else {
                full - sum
            };
            if off > ANGLE_SUM_SLACK_UDEG as i128 {
                Err(SolveError::AngleSumInvalid { sum_udeg: sum })
            } else {
                Ok(*self)
            }
        } else if given == 3 {
            let sum = self.sum();
            let missing = FULL_TURN_UDEG as i128 - sum;
            if missing <= 0 || missing >= FULL_TURN_UDEG as i128 {
                Err(SolveError::InvalidDerivedAngle { value_udeg: missing })
            } else {
                match self.first_missing() {
                    Some(vertex) => {
                        let mut angles = *self;
                        angles.set(vertex, Some(missing as i64));
                        Ok(angles)
                    },
                    None => Ok(*self),
                }
            }
        } else {
            Ok(*self)
        }
    }

    /// Fills in every unknown angle with the interior angle of the measured
    /// one and leaves the known angles as they are.
    pub fn fill_from(&self, measured: &SignedAngles) -> (angles: AngleSet)
        ensures
            angles == self.filled_from(*measured),
    {
        AngleSet {
            a: Some(keep_or_measure(self.a, measured.a)),
            b: Some(keep_or_measure(self.b, measured.b)),
            c: Some(keep_or_measure(self.c, measured.c)),
            d: Some(keep_or_measure(self.d, measured.d)),
        }
    }
}

fn keep_or_measure(known: Option<i64>, signed: i64) -> (v: i64)
    ensures
        v == AngleSet::kept_or_measured(known, signed),
{
    match known {
        Some(v) => v,
        None => interior_angle(signed),
    }
}

/// The interior angle, in microdegrees from 0 to 180 degrees, that belongs
/// to a signed angle between the directions from a vertex to its two
/// neighbours.
pub fn interior_angle(signed_udeg: i64) -> (angle: i64)
    ensures
        angle == interior_of(signed_udeg as int),
        0 <= angle <= HALF_TURN_UDEG,
{
    let turned: i64 = if signed_udeg >= 0 {
        signed_udeg % FULL_TURN_UDEG
    } else {
        let back: i64 = (-(signed_udeg + 1)) % FULL_TURN_UDEG;
        FULL_TURN_UDEG - 1 - back
    };
    assert(turned == signed_udeg as int % (FULL_TURN_UDEG as int));
    if turned > HALF_TURN_UDEG {
        FULL_TURN_UDEG - turned
    } else {
        turned
    }
}

/// The interior angle of a signed angle between -180 and 180 degrees is its
/// absolute value.
pub proof fn lemma_interior_is_absolute_value(signed: int)
    requires
        -HALF_TURN_UDEG <= signed <= HALF_TURN_UDEG,
    ensures
        interior_of(signed) == if signed >= 0 {
            signed
        } else {
            -signed
        },
{
}

/// Adding a full turn to a signed angle does not change its interior
/// angle, and neither does reversing its sign.
pub proof fn lemma_interior_ignores_turns_and_sign(signed: int)
    ensures
        interior_of(signed + FULL_TURN_UDEG) == interior_of(signed),
        interior_of(-signed) == interior_of(signed),
        0 <= interior_of(signed) <= HALF_TURN_UDEG,
{
}

/// Where the angle sum succeeds on three or four known angles, all four
/// angles are known afterwards and sum to a full turn within half a degree;
/// with three known, they sum to exactly 360 degrees. The known angles keep
/// their values.
pub proof fn lemma_completed_angles_sum_to_full_turn(angles: AngleSet)
    requires
        angles.count() >= 3,
        angles.completed() is Ok,
    ensures
        ({
            let done = angles.completed()->Ok_0;
            &&& done.count() == 4
            &&& is_full_turn(done.total())
            &&& angles.count() == 3 ==> done.total() == FULL_TURN_UDEG
            &&& forall|v: Vertex| angles.has(v) ==> done.of(v) == angles.of(v)
        }),
{
}

} // verus!
