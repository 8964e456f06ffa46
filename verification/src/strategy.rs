//! The constructions that place the four vertices, and the choice among them.
//!
//! Which construction is used depends only on which sides and angles are
//! known, never on their values. The constructions are tried in a fixed
//! order and the first that fits is taken.

use vstd::prelude::*;
use crate::ident::{Side, Vertex};
use crate::measures::{AngleSet, SideSet};

verus! {

/// How many constructions there are.
pub const STRATEGY_COUNT: usize = 13;

/// A way to place the four vertices.
///
/// A construction with two angles puts the side between the two angles on
/// the baseline, turns the two neighbouring sides out of it by the two
/// angles, and so reaches the other two vertices from opposite ends. The
/// side that joins them is the closing side. A construction with one angle
/// places the two sides at that angle and finds the fourth vertex where the
/// circles of the two other sides meet.
#[derive(Clone, Copy, Debug, PartialEq, Eq, Structural)]
pub enum Strategy {
    /// All four sides, angles at A and B; CD closes.
    FourSidesAnglesAB,
    /// All four sides, angles at B and C; DA closes.
    FourSidesAnglesBC,
    /// All four sides, angles at C and D; AB closes.
    FourSidesAnglesCD,
    /// All four sides, angles at D and A; BC closes.
    FourSidesAnglesDA,
    /// All four sides and the angle at A; C lies on two circles.
    FourSidesAngleA,
    /// All four sides and the angle at B; D lies on two circles.
    FourSidesAngleB,
    /// All four sides and the angle at C; A lies on two circles.
    FourSidesAngleC,
    /// All four sides and the angle at D; B lies on two circles.
    FourSidesAngleD,
    /// AB, BC and DA with the angles at A and B; CD is not known.
    ThreeSidesAnglesAB,
    /// BC, CD and AB with the angles at B and C; DA is not known.
    ThreeSidesAnglesBC,
    /// CD, DA and BC with the angles at C and D; AB is not known.
    ThreeSidesAnglesCD,
    /// DA, AB and CD with the angles at D and A; BC is not known.
    ThreeSidesAnglesDA,
    /// BC, CD and DA with the angles at B and C; AB is not known.
    ThreeSidesAnglesBCOpenAB,
}

impl Strategy {
    /// The place of the construction in the order in which they are tried.
    pub open spec fn rank(self) -> int {
        match self {
            Strategy::FourSidesAnglesAB => 0,
            Strategy::FourSidesAnglesBC => 1,
            Strategy::FourSidesAnglesCD => 2,
            Strategy::FourSidesAnglesDA => 3,
            Strategy::FourSidesAngleA => 4,
            Strategy::FourSidesAngleB => 5,
            Strategy::FourSidesAngleC => 6,
            Strategy::FourSidesAngleD => 7,
            Strategy::ThreeSidesAnglesAB => 8,
            Strategy::ThreeSidesAnglesBC => 9,
            Strategy::ThreeSidesAnglesCD => 10,
            Strategy::ThreeSidesAnglesDA => 11,
            Strategy::ThreeSidesAnglesBCOpenAB => 12,
        }
    }

    /// The construction at a place in that order.
    pub open spec fn ranked(i: int) -> Strategy {
        if i == 0 {
            Strategy::FourSidesAnglesAB
        } else if i == 1 {
            Strategy::FourSidesAnglesBC
        } else if i == 2 {
            Strategy::FourSidesAnglesCD
        } else if i == 3 {
            Strategy::FourSidesAnglesDA
        } else if i == 4 {
            Strategy::FourSidesAngleA
        } else if i == 5 {
            Strategy::FourSidesAngleB
        } else if i == 6 {
            Strategy::FourSidesAngleC
        } else if i == 7 {
            Strategy::FourSidesAngleD
        } else if i == 8 {
            Strategy::ThreeSidesAnglesAB
        } else if i == 9 {
            Strategy::ThreeSidesAnglesBC
        } else if i == 10 {
            Strategy::ThreeSidesAnglesCD
        } else if i == 11 {
            Strategy::ThreeSidesAnglesDA
        } else {
            Strategy::ThreeSidesAnglesBCOpenAB
        }
    }

    /// The vertex whose angle the construction turns by first. Its angle
    /// must be known.
    pub open spec fn anchor(self) -> Vertex {
        match self {
            Strategy::FourSidesAnglesAB => Vertex::A,
            Strategy::FourSidesAnglesBC => Vertex::B,
            Strategy::FourSidesAnglesCD => Vertex::C,
            Strategy::FourSidesAnglesDA => Vertex::D,
            Strategy::FourSidesAngleA => Vertex::A,
            Strategy::FourSidesAngleB => Vertex::B,
            Strategy::FourSidesAngleC => Vertex::C,
            Strategy::FourSidesAngleD => Vertex::D,
            Strategy::ThreeSidesAnglesAB => Vertex::A,
            Strategy::ThreeSidesAnglesBC => Vertex::B,
            Strategy::ThreeSidesAnglesCD => Vertex::C,
            Strategy::ThreeSidesAnglesDA => Vertex::D,
            Strategy::ThreeSidesAnglesBCOpenAB => Vertex::B,
        }
    }

    /// Whether the construction needs one angle only and finds the fourth
    /// vertex on two circles.
    pub open spec fn by_circles(self) -> bool {
        4 <= self.rank() < 8
    }

    /// The second vertex whose angle must be known: the one that follows
    /// the anchor, unless the construction needs one angle only.
    pub open spec fn partner(self) -> Option<Vertex> {
        if self.by_circles() {
            None
        } else {
            Some(self.anchor().following())
        }
    }

    /// The side that must not be known: none where the construction uses
    /// all four.
    pub open spec fn open_side(self) -> Option<Side> {
        match self {
            Strategy::ThreeSidesAnglesAB => Some(Side::CD),
            Strategy::ThreeSidesAnglesBC => Some(Side::DA),
            Strategy::ThreeSidesAnglesCD => Some(Side::AB),
            Strategy::ThreeSidesAnglesDA => Some(Side::BC),
            Strategy::ThreeSidesAnglesBCOpenAB => Some(Side::AB),
            _ => None,
        }
    }

    /// The side that joins the two chains of a construction with two
    /// angles. Its measured length is checked against the given length, or
    /// taken as the side's length where none is given. A construction on
    /// circles has no such side.
    pub open spec fn closing_side(self) -> Option<Side> {
        match self {
            Strategy::FourSidesAnglesAB => Some(Side::CD),
            Strategy::FourSidesAnglesBC => Some(Side::DA),
            Strategy::FourSidesAnglesCD => Some(Side::AB),
            Strategy::FourSidesAnglesDA => Some(Side::BC),
            Strategy::FourSidesAngleA => None,
            Strategy::FourSidesAngleB => None,
            Strategy::FourSidesAngleC => None,
            Strategy::FourSidesAngleD => None,
            Strategy::ThreeSidesAnglesAB => Some(Side::CD),
            Strategy::ThreeSidesAnglesBC => Some(Side::DA),
            Strategy::ThreeSidesAnglesCD => Some(Side::AB),
            Strategy::ThreeSidesAnglesDA => Some(Side::BC),
            Strategy::ThreeSidesAnglesBCOpenAB => Some(Side::AB),
        }
    }

    /// Whether a side is known exactly where the construction needs it: the
    /// open side is not known, every other side is.
    pub open spec fn side_fits(self, sides: SideSet, side: Side) -> bool {
        sides.has(side) <==> self.open_side() != Some(side)
    }

    /// Whether the construction can be carried out with what is known.
    pub open spec fn fits(self, sides: SideSet, angles: AngleSet) -> bool {
        &&& self.side_fits(sides, Side::AB)
        &&& self.side_fits(sides, Side::BC)
        &&& self.side_fits(sides, Side::CD)
        &&& self.side_fits(sides, Side::DA)
        &&& angles.has(self.anchor())
        &&& (self.partner() matches Some(v) ==> angles.has(v))
    }

    /// The first construction that fits, among those at place `from` and
    /// later.
    pub open spec fn first_fit(sides: SideSet, angles: AngleSet, from: int) -> Option<Strategy>
        decreases STRATEGY_COUNT - from,
    {
        if from < 0 || from >= STRATEGY_COUNT {
            None
        } else if Strategy::ranked(from).fits(sides, angles) {
            Some(Strategy::ranked(from))
        } else {
            Strategy::first_fit(sides, angles, from + 1)
        }
    }

    /// The construction that is used for what is known: the first that fits.
    pub open spec fn chosen(sides: SideSet, angles: AngleSet) -> Option<Strategy> {
        Strategy::first_fit(sides, angles, 0)
    }

    pub fn index(self) -> (i: usize)
        ensures
            i == self.rank(),
            i < STRATEGY_COUNT,
    {
        match self {
            Strategy::FourSidesAnglesAB => 0,
            Strategy::FourSidesAnglesBC => 1,
            Strategy::FourSidesAnglesCD => 2,
            Strategy::FourSidesAnglesDA => 3,
            Strategy::FourSidesAngleA => 4,
            Strategy::FourSidesAngleB => 5,
            Strategy::FourSidesAngleC => 6,
            Strategy::FourSidesAngleD => 7,
            Strategy::ThreeSidesAnglesAB => 8,
            Strategy::ThreeSidesAnglesBC => 9,
            Strategy::ThreeSidesAnglesCD => 10,
            Strategy::ThreeSidesAnglesDA => 11,
            Strategy::ThreeSidesAnglesBCOpenAB => 12,
        }
    }

    /// The construction at a place in the order in which they are tried.
    pub fn from_index(i: usize) -> (s: Option<Strategy>)
        ensures
            i < STRATEGY_COUNT ==> s == Some(Strategy::ranked(i as int)),
            i >= STRATEGY_COUNT ==> s is None,
            s matches Some(x) ==> x.rank() == i,
    {
        if i == 0 {
            Some(Strategy::FourSidesAnglesAB)
        } else if i == 1 {
            Some(Strategy::FourSidesAnglesBC)
        } else if i == 2 {
            Some(Strategy::FourSidesAnglesCD)
        } else if i == 3 {
            Some(Strategy::FourSidesAnglesDA)
        } else if i == 4 {
            Some(Strategy::FourSidesAngleA)
        } else if i == 5 {
            Some(Strategy::FourSidesAngleB)
        } else if i == 6 {
            Some(Strategy::FourSidesAngleC)
        } else if i == 7 {
            Some(Strategy::FourSidesAngleD)
        } else if i == 8 {
            Some(Strategy::ThreeSidesAnglesAB)
        } else if i == 9 {
            Some(Strategy::ThreeSidesAnglesBC)
        } else if i == 10 {
            Some(Strategy::ThreeSidesAnglesCD)
        } else if i == 11 {
            Some(Strategy::ThreeSidesAnglesDA)
        } else if i == 12 {
            Some(Strategy::ThreeSidesAnglesBCOpenAB)
        } else {
            None
        }
    }

    /// The vertex whose known angle the construction starts from.
    pub fn first_angle(self) -> (v: Vertex)
        ensures
            v == self.anchor(),
    {
        match self {
            Strategy::FourSidesAnglesAB => Vertex::A,
            Strategy::FourSidesAnglesBC => Vertex::B,
            Strategy::FourSidesAnglesCD => Vertex::C,
            Strategy::FourSidesAnglesDA => Vertex::D,
            Strategy::FourSidesAngleA => Vertex::A,
            Strategy::FourSidesAngleB => Vertex::B,
            Strategy::FourSidesAngleC => Vertex::C,
            Strategy::FourSidesAngleD => Vertex::D,
            Strategy::ThreeSidesAnglesAB => Vertex::A,
            Strategy::ThreeSidesAnglesBC => Vertex::B,
            Strategy::ThreeSidesAnglesCD => Vertex::C,
            Strategy::ThreeSidesAnglesDA => Vertex::D,
            Strategy::ThreeSidesAnglesBCOpenAB => Vertex::B,
        }
    }

    /// Whether the fourth vertex is found where two circles meet.
    pub fn uses_circles(self) -> (b: bool)
        ensures
            b == self.by_circles(),
    {
        match self {
            Strategy::FourSidesAngleA => true,
            Strategy::FourSidesAngleB => true,
            Strategy::FourSidesAngleC => true,
            Strategy::FourSidesAngleD => true,
            _ => false,
        }
    }

    /// The second vertex whose angle the construction turns by, if it
    /// turns by two.
    pub fn second_angle(self) -> (v: Option<Vertex>)
        ensures
            v == self.partner(),
    {
        if self.uses_circles() {
            None
        } else {
            Some(self.first_angle().next())
        }
    }

    /// The side that the construction leaves out, if it leaves one out.
    pub fn missing_side(self) -> (s: Option<Side>)
        ensures
            s == self.open_side(),
    {
        match self {
            Strategy::ThreeSidesAnglesAB => Some(Side::CD),
            Strategy::ThreeSidesAnglesBC => Some(Side::DA),
            Strategy::ThreeSidesAnglesCD => Some(Side::AB),
            Strategy::ThreeSidesAnglesDA => Some(Side::BC),
            Strategy::ThreeSidesAnglesBCOpenAB => Some(Side::AB),
            _ => None,
        }
    }

    /// The side whose measured length closes the construction, if there is
    /// one.
    pub fn closing(self) -> (s: Option<Side>)
        ensures
            s == self.closing_side(),
    {
        match self {
            Strategy::FourSidesAnglesAB => Some(Side::CD),
            Strategy::FourSidesAnglesBC => Some(Side::DA),
            Strategy::FourSidesAnglesCD => Some(Side::AB),
            Strategy::FourSidesAnglesDA => Some(Side::BC),
            Strategy::FourSidesAngleA => None,
            Strategy::FourSidesAngleB => None,
            Strategy::FourSidesAngleC => None,
            Strategy::FourSidesAngleD => None,
            Strategy::ThreeSidesAnglesAB => Some(Side::CD),
            Strategy::ThreeSidesAnglesBC => Some(Side::DA),
            Strategy::ThreeSidesAnglesCD => Some(Side::AB),
            Strategy::ThreeSidesAnglesDA => Some(Side::BC),
            Strategy::ThreeSidesAnglesBCOpenAB => Some(Side::AB),
        }
    }

    fn side_applies(self, sides: &SideSet, side: Side) -> (b: bool)
        ensures
            b == self.side_fits(*sides, side),
    {
        let wanted = match self.missing_side() {
            Some(open) => open.index() != side.index(),
            None => true,
        };
        sides.is_given(side) == wanted
    }

    /// Whether the construction can be carried out with the sides and
    /// angles that are known.
    pub fn applies(self, sides: &SideSet, angles: &AngleSet) -> (b: bool)
        ensures
            b == self.fits(*sides, *angles),
    {
        let sides_fit = self.side_applies(sides, Side::AB) && self.side_applies(sides, Side::BC)
            && self.side_applies(sides, Side::CD) && self.side_applies(sides, Side::DA);
        let second_known = match self.second_angle() {
            Some(v) => angles.is_given(v),
            None => true,
        };
        sides_fit && angles.is_given(self.first_angle()) && second_known
    }

    /// Chooses the construction for the sides and angles that are known:
    /// the first in the fixed order that fits, or none where none fits.
    pub fn select(sides: &SideSet, angles: &AngleSet) -> (s: Option<Strategy>)
        ensures
            s == Strategy::chosen(*sides, *angles),
    {
        let mut i: usize = 0;
        while i < STRATEGY_COUNT
            invariant
                i <= STRATEGY_COUNT,
                Strategy::chosen(*sides, *angles) == Strategy::first_fit(*sides, *angles, i as int),
            decreases STRATEGY_COUNT - i,
        {
            match Strategy::from_index(i) {
                Some(candidate) => {
                    if candidate.applies(sides, angles) {
                        return Some(candidate);
                    }
                },
                None => {},
            }
            i = i + 1;
        }
        None
    }
}

/// The construction that is chosen fits, and no construction before it in
/// the order does. Where none is chosen, none fits.
pub proof fn lemma_chosen_is_first_that_fits(sides: SideSet, angles: AngleSet)
    ensures
        match Strategy::chosen(sides, angles) {
            Some(s) => s.fits(sides, angles) && forall|t: Strategy|
                t.rank() < s.rank() ==> !t.fits(sides, angles),
            None => forall|t: Strategy| !t.fits(sides, angles),
        },
{
    lemma_first_fit(sides, angles, 0);
}

proof fn lemma_first_fit(sides: SideSet, angles: AngleSet, from: int)
    requires
        0 <= from <= STRATEGY_COUNT,
    ensures
        match Strategy::first_fit(sides, angles, from) {
            Some(s) => s.fits(sides, angles) && from <= s.rank() && forall|t: Strategy|
                from <= t.rank() < s.rank() ==> !t.fits(sides, angles),
            None => forall|t: Strategy| from <= t.rank() ==> !t.fits(sides, angles),
        },
    decreases STRATEGY_COUNT - from,
{
    if from < STRATEGY_COUNT {
        lemma_first_fit(sides, angles, from + 1);
        assert(forall|t: Strategy| t.rank() == from ==> t == Strategy::ranked(from));
        assert(Strategy::ranked(from).rank() == from);
    } else {
        assert(forall|t: Strategy| t.rank() < STRATEGY_COUNT);
    }
}

/// With all four sides and at least one angle known, a construction is
/// chosen, and it uses all four sides.
pub proof fn lemma_four_sides_always_chosen(sides: SideSet, angles: AngleSet)
    requires
        sides.count() == 4,
        angles.count() >= 1,
    ensures
        Strategy::chosen(sides, angles) matches Some(s) && s.open_side() is None,
{
    lemma_chosen_is_first_that_fits(sides, angles);
    let v = if angles.a is Some {
        Strategy::FourSidesAngleA
    } else if angles.b is Some {
        Strategy::FourSidesAngleB
    } else if angles.c is Some {
        Strategy::FourSidesAngleC
    } else {
        Strategy::FourSidesAngleD
    };
    assert(v.fits(sides, angles));
}

/// With all four sides known and no two known angles at the ends of one
/// side, the construction on circles is chosen for the first known angle in
/// the order A, B, C, D.
pub proof fn lemma_lone_angle_goes_by_circles(sides: SideSet, angles: AngleSet)
    requires
        sides.count() == 4,
        angles.count() >= 1,
        !angles.has_adjacent_pair(),
    ensures
        Strategy::chosen(sides, angles) matches Some(s) && s.by_circles() && angles.has(
            s.anchor(),
        ) && forall|v: Vertex| v.rank() < s.anchor().rank() ==> !angles.has(v),
{
    lemma_chosen_is_first_that_fits(sides, angles);
    assert(!angles.has_pair_at(Vertex::A));
    assert(!angles.has_pair_at(Vertex::B));
    assert(!angles.has_pair_at(Vertex::C));
    assert(!angles.has_pair_at(Vertex::D));
    assert(!Strategy::FourSidesAnglesAB.fits(sides, angles));
    assert(!Strategy::FourSidesAnglesBC.fits(sides, angles));
    assert(!Strategy::FourSidesAnglesCD.fits(sides, angles));
    assert(!Strategy::FourSidesAnglesDA.fits(sides, angles));
    let first = if angles.a is Some {
        Strategy::FourSidesAngleA
    } else if angles.b is Some {
        Strategy::FourSidesAngleB
    } else if angles.c is Some {
        Strategy::FourSidesAngleC
    } else {
        Strategy::FourSidesAngleD
    };
    assert(first.fits(sides, angles));
    let s = Strategy::chosen(sides, angles)->0;
    assert(s.rank() <= first.rank());
    if angles.a is None {
        assert(!Strategy::FourSidesAngleA.fits(sides, angles));
        if angles.b is None {
            assert(!Strategy::FourSidesAngleB.fits(sides, angles));
            if angles.c is None {
                assert(!Strategy::FourSidesAngleC.fits(sides, angles));
            }
        }
    }
}

} // verus!
