//! The records that hold one value per side or per vertex.
//!
//! Lengths are whole micrometers, angles whole microdegrees.

use vstd::prelude::*;
use crate::ident::{Side, Vertex};

verus! {

/// Micrometers in one millimeter.
pub const UM_PER_MM: i64 = 1_000;

/// Microdegrees in one degree.
pub const UDEG_PER_DEGREE: i64 = 1_000_000;

/// Microdegrees in a full turn of 360 degrees.
pub const FULL_TURN_UDEG: i64 = 360_000_000;

/// Microdegrees in a half turn of 180 degrees.
pub const HALF_TURN_UDEG: i64 = 180_000_000;

/// How far the sum of four given angles may lie from a full turn: half a
/// degree.
pub const ANGLE_SUM_SLACK_UDEG: i64 = 500_000;

/// One if the value is there, zero if it is not.
pub open spec fn one_if_given(v: Option<i64>) -> int {
    if v is Some {
        1
    } else {
        0
    }
}

/// The value if it is there, zero if it is not.
pub open spec fn value_or_zero(v: Option<i64>) -> int {
    match v {
        Some(x) => x as int,
        None => 0,
    }
}

/// The side lengths that are known, in micrometers.
#[derive(Clone, Copy, Debug, PartialEq, Eq)]
pub struct SideSet {
    pub ab: Option<i64>,
    pub bc: Option<i64>,
    pub cd: Option<i64>,
    pub da: Option<i64>,
}

/// The interior angles that are known, in microdegrees.
#[derive(Clone, Copy, Debug, PartialEq, Eq)]
pub struct AngleSet {
    pub a: Option<i64>,
    pub b: Option<i64>,
    pub c: Option<i64>,
    pub d: Option<i64>,
}

/// The length of every side as measured between the placed vertices, in
/// micrometers.
#[derive(Clone, Copy, Debug, PartialEq, Eq)]
pub struct Lengths {
    pub ab: i64,
    pub bc: i64,
    pub cd: i64,
    pub da: i64,
}

/// The signed angle at every vertex between the directions to its two
/// neighbours, as measured between the placed vertices, in microdegrees.
#[derive(Clone, Copy, Debug, PartialEq, Eq)]
pub struct SignedAngles {
    pub a: i64,
    pub b: i64,
    pub c: i64,
    pub d: i64,
}

impl SideSet {
    /// The set in which no side is known.
    pub open spec fn none() -> SideSet {
        SideSet { ab: None, bc: None, cd: None, da: None }
    }

    /// The entry of one side.
    pub open spec fn of(self, side: Side) -> Option<i64> {
        match side {
            Side::AB => self.ab,
            Side::BC => self.bc,
            Side::CD => self.cd,
            Side::DA => self.da,
        }
    }

    /// The set with the entry of one side replaced.
    pub open spec fn with(self, side: Side, value: Option<i64>) -> SideSet {
        match side {
            Side::AB => SideSet { ab: value, ..self },
            Side::BC => SideSet { bc: value, ..self },
            Side::CD => SideSet { cd: value, ..self },
            Side::DA => SideSet { da: value, ..self },
        }
    }

    pub open spec fn has(self, side: Side) -> bool {
        self.of(side) is Some
    }

    /// How many sides are known.
    pub open spec fn count(self) -> int {
        one_if_given(self.ab) + one_if_given(self.bc) + one_if_given(self.cd) + one_if_given(
            self.da,
        )
    }

    pub fn empty() -> (s: SideSet)
        ensures
            s == SideSet::none(),
    {
        SideSet { ab: None, bc: None, cd: None, da: None }
    }

    pub fn get(&self, side: Side) -> (v: Option<i64>)
        ensures
            v == self.of(side),
    {
        match side {
            Side::AB => self.ab,
            Side::BC => self.bc,
            Side::CD => self.cd,
            Side::DA => self.da,
        }
    }

    /// Replaces the entry of one side and leaves the other three.
    pub fn set(&mut self, side: Side, value: Option<i64>)
        ensures
            *final(self) == old(self).with(side, value),
    {
        match side {
            Side::AB => {
                self.ab = value;
            },
            Side::BC => {
                self.bc = value;
            },
            Side::CD => {
                self.cd = value;
            },
            Side::DA => {
                self.da = value;
            },
        }
    }

    pub fn is_given(&self, side: Side) -> (b: bool)
        ensures
            b == self.has(side),
    {
        self.get(side).is_some()
    }

    pub fn given(&self) -> (n: usize)
        ensures
            n == self.count(),
            n <= 4,
    {
        let mut n: usize = 0;
        if self.ab.is_some() {
            n = n + 1;
        }
        if self.bc.is_some() {
            n = n + 1;
        }
        if self.cd.is_some() {
            n = n + 1;
        }
        if self.da.is_some() {
            n = n + 1;
        }
        n
    }
}

impl AngleSet {
    /// The set in which no angle is known.
    pub open spec fn none() -> AngleSet {
        AngleSet { a: None, b: None, c: None, d: None }
    }

    /// The entry of one vertex.
    pub open spec fn of(self, vertex: Vertex) -> Option<i64> {
        match vertex {
            Vertex::A => self.a,
            Vertex::B => self.b,
            Vertex::C => self.c,
            Vertex::D => self.d,
        }
    }

    /// The set with the entry of one vertex replaced.
    pub open spec fn with(self, vertex: Vertex, value: Option<i64>) -> AngleSet {
        match vertex {
            Vertex::A => AngleSet { a: value, ..self },
            Vertex::B => AngleSet { b: value, ..self },
            Vertex::C => AngleSet { c: value, ..self },
            Vertex::D => AngleSet { d: value, ..self },
        }
    }

    pub open spec fn has(self, vertex: Vertex) -> bool {
        self.of(vertex) is Some
    }

    /// How many angles are known.
    pub open spec fn count(self) -> int {
        one_if_given(self.a) + one_if_given(self.b) + one_if_given(self.c) + one_if_given(self.d)
    }

    /// The sum of the known angles.
    pub open spec fn total(self) -> int {
        value_or_zero(self.a) + value_or_zero(self.b) + value_or_zero(self.c) + value_or_zero(
            self.d,
        )
    }

    /// Whether the angles at the two ends of one side are both known.
    pub open spec fn has_pair_at(self, first: Vertex) -> bool {
        self.has(first) && self.has(first.following())
    }

    /// Whether the angles at the two ends of some side are both known.
    pub open spec fn has_adjacent_pair(self) -> bool {
        exists|v: Vertex| self.has_pair_at(v)
    }

    /// The first vertex, in the order A, B, C, D, whose angle is not known.
    pub open spec fn first_unset(self) -> Option<Vertex> {
        if self.a is None {
            Some(Vertex::A)
        } else if self.b is None {
            Some(Vertex::B)
        } else if self.c is None {
            Some(Vertex::C)
        } else if self.d is None {
            Some(Vertex::D)
        } else {
            None
        }
    }

    pub fn empty() -> (s: AngleSet)
        ensures
            s == AngleSet::none(),
    {
        AngleSet { a: None, b: None, c: None, d: None }
    }

    pub fn get(&self, vertex: Vertex) -> (v: Option<i64>)
        ensures
            v == self.of(vertex),
    {
        match vertex {
            Vertex::A => self.a,
            Vertex::B => self.b,
            Vertex::C => self.c,
            Vertex::D => self.d,
        }
    }

    /// Replaces the entry of one vertex and leaves the other three.
    pub fn set(&mut self, vertex: Vertex, value: Option<i64>)
        ensures
            *final(self) == old(self).with(vertex, value),
    {
        match vertex {
            Vertex::A => {
                self.a = value;
            },
            Vertex::B => {
                self.b = value;
            },
            Vertex::C => {
                self.c = value;
            },
            Vertex::D => {
                self.d = value;
            },
        }
    }

    pub fn is_given(&self, vertex: Vertex) -> (b: bool)
        ensures
            b == self.has(vertex),
    {
        self.get(vertex).is_some()
    }

    pub fn given(&self) -> (n: usize)
        ensures
            n == self.count(),
            n <= 4,
    {
        let mut n: usize = 0;
        if self.a.is_some() {
            n = n + 1;
        }
        if self.b.is_some() {
            n = n + 1;
        }
        if self.c.is_some() {
            n = n + 1;
        }
        if self.d.is_some() {
            n = n + 1;
        }
        n
    }
}

impl Lengths {
    /// The measurement of an unsolved shape: every side has length zero.
    pub open spec fn zero() -> Lengths {
        Lengths { ab: 0, bc: 0, cd: 0, da: 0 }
    }

    pub open spec fn of(self, side: Side) -> i64 {
        match side {
            Side::AB => self.ab,
            Side::BC => self.bc,
            Side::CD => self.cd,
            Side::DA => self.da,
        }
    }

    pub fn get(&self, side: Side) -> (v: i64)
        ensures
            v == self.of(side),
    {
        match side {
            Side::AB => self.ab,
            Side::BC => self.bc,
            Side::CD => self.cd,
            Side::DA => self.da,
        }
    }
}

impl SignedAngles {
    pub open spec fn of(self, vertex: Vertex) -> i64 {
        match vertex {
            Vertex::A => self.a,
            Vertex::B => self.b,
            Vertex::C => self.c,
            Vertex::D => self.d,
        }
    }

    pub fn get(&self, vertex: Vertex) -> (v: i64)
        ensures
            v == self.of(vertex),
    {
        match vertex {
            Vertex::A => self.a,
            Vertex::B => self.b,
            Vertex::C => self.c,
            Vertex::D => self.d,
        }
    }
}

} // verus!
