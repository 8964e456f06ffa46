//! Names of the four sides and the four vertices.

use vstd::prelude::*;

verus! {

/// A side of the quadrilateral, named by its two end vertices.
#[derive(Clone, Copy, Debug, PartialEq, Eq, Structural)]
pub enum Side {
    AB,
    BC,
    CD,
    DA,
}

/// A vertex of the quadrilateral. The vertices follow each other in the
/// order A, B, C, D and back to A.
#[derive(Clone, Copy, Debug, PartialEq, Eq, Structural)]
pub enum Vertex {
    A,
    B,
    C,
    D,
}

impl Vertex {
    /// Position in the order A, B, C, D.
    pub open spec fn rank(self) -> int {
        match self {
            Vertex::A => 0,
            Vertex::B => 1,
            Vertex::C => 2,
            Vertex::D => 3,
        }
    }

    /// The vertex at a position, counted modulo four.
    pub open spec fn at(i: int) -> Vertex {
        let r = i % 4;
        if r == 0 {
            Vertex::A
        } else if r == 1 {
            Vertex::B
        } else if r == 2 {
            Vertex::C
        } else {
            Vertex::D
        }
    }

    pub open spec fn following(self) -> Vertex {
        Vertex::at(self.rank() + 1)
    }

    pub open spec fn preceding(self) -> Vertex {
        Vertex::at(self.rank() + 3)
    }

    pub fn index(self) -> (i: usize)
        ensures
            i == self.rank(),
    {
        match self {
            Vertex::A => 0,
            Vertex::B => 1,
            Vertex::C => 2,
            Vertex::D => 3,
        }
    }

    /// The vertex with the given index, if the index is below four.
    pub fn from_index(i: usize) -> (v: Option<Vertex>)
        ensures
            i < 4 ==> v == Some(Vertex::at(i as int)),
            i >= 4 ==> v is None,
    {
        if i == 0 {
            Some(Vertex::A)
        } else if i == 1 {
            Some(Vertex::B)
        } else if i == 2 {
            Some(Vertex::C)
        } else if i == 3 {
            Some(Vertex::D)
        } else {
            None
        }
    }

    /// The next vertex in the order A, B, C, D, A.
    pub fn next(self) -> (v: Vertex)
        ensures
            v == self.following(),
    {
        match self {
            Vertex::A => Vertex::B,
            Vertex::B => Vertex::C,
            Vertex::C => Vertex::D,
            Vertex::D => Vertex::A,
        }
    }

    /// The previous vertex in the order A, B, C, D, A.
    pub fn prev(self) -> (v: Vertex)
        ensures
            v == self.preceding(),
    {
        match self {
            Vertex::A => Vertex::D,
            Vertex::B => Vertex::A,
            Vertex::C => Vertex::B,
            Vertex::D => Vertex::C,
        }
    }

    /// The side that leaves this vertex: AB for A, BC for B, and so on.
    pub open spec fn leaving(self) -> Side {
        Side::at(self.rank())
    }

    /// The side that arrives at this vertex: DA for A, AB for B, and so on.
    pub open spec fn arriving(self) -> Side {
        Side::at(self.rank() + 3)
    }

    pub fn side_out(self) -> (s: Side)
        ensures
            s == self.leaving(),
            s.start() == self,
    {
        match self {
            Vertex::A => Side::AB,
            Vertex::B => Side::BC,
            Vertex::C => Side::CD,
            Vertex::D => Side::DA,
        }
    }

    pub fn side_in(self) -> (s: Side)
        ensures
            s == self.arriving(),
            s.end() == self,
    {
        match self {
            Vertex::A => Side::DA,
            Vertex::B => Side::AB,
            Vertex::C => Side::BC,
            Vertex::D => Side::CD,
        }
    }
}

impl Side {
    /// Position in the order AB, BC, CD, DA.
    pub open spec fn rank(self) -> int {
        match self {
            Side::AB => 0,
            Side::BC => 1,
            Side::CD => 2,
            Side::DA => 3,
        }
    }

    /// The side at a position, counted modulo four.
    pub open spec fn at(i: int) -> Side {
        let r = i % 4;
        if r == 0 {
            Side::AB
        } else if r == 1 {
            Side::BC
        } else if r == 2 {
            Side::CD
        } else {
            Side::DA
        }
    }

    /// The vertex at which the side begins.
    pub open spec fn start(self) -> Vertex {
        Vertex::at(self.rank())
    }

    /// The vertex at which the side ends.
    pub open spec fn end(self) -> Vertex {
        Vertex::at(self.rank() + 1)
    }

    /// The side that shares no vertex with this one.
    pub open spec fn facing(self) -> Side {
        Side::at(self.rank() + 2)
    }

    /// The characters of the side's name.
    pub open spec fn label(self) -> Seq<char> {
        match self {
            Side::AB => seq!['A', 'B'],
            Side::BC => seq!['B', 'C'],
            Side::CD => seq!['C', 'D'],
            Side::DA => seq!['D', 'A'],
        }
    }

    /// The side that a label names, if it names one.
    pub open spec fn labelled(text: Seq<char>) -> Option<Side> {
        if text == Side::AB.label() {
            Some(Side::AB)
        } else if text == Side::BC.label() {
            Some(Side::BC)
        } else if text == Side::CD.label() {
            Some(Side::CD)
        } else if text == Side::DA.label() {
            Some(Side::DA)
        } else {
            None
        }
    }

    pub fn index(self) -> (i: usize)
        ensures
            i == self.rank(),
    {
        match self {
            Side::AB => 0,
            Side::BC => 1,
            Side::CD => 2,
            Side::DA => 3,
        }
    }

    /// The side with the given index, if the index is below four.
    pub fn from_index(i: usize) -> (s: Option<Side>)
        ensures
            i < 4 ==> s == Some(Side::at(i as int)),
            i >= 4 ==> s is None,
    {
        if i == 0 {
            Some(Side::AB)
        } else if i == 1 {
            Some(Side::BC)
        } else if i == 2 {
            Some(Side::CD)
        } else if i == 3 {
            Some(Side::DA)
        } else {
            None
        }
    }

    /// Reads a side from its two-letter name. Any other text names no side.
    pub fn from_name(name: &str) -> (s: Option<Side>)
        ensures
            s == Side::labelled(name@),
    {
        if name.unicode_len() != 2 {
            return None;
        }
        let first = name.get_char(0);
        let second = name.get_char(1);
        assert(name@ =~= seq![first, second]);
        if first == 'A' && second == 'B' {
            Some(Side::AB)
        } else if first == 'B' && second == 'C' {
            Some(Side::BC)
        } else if first == 'C' && second == 'D' {
            Some(Side::CD)
        } else if first == 'D' && second == 'A' {
            Some(Side::DA)
        } else {
            assert(name@ != Side::AB.label()) by {
                if name@ == Side::AB.label() {
                    assert(name@[0] == 'A' && name@[1] == 'B');
                }
            }
            assert(name@ != Side::BC.label()) by {
                if name@ == Side::BC.label() {
                    assert(name@[0] == 'B' && name@[1] == 'C');
                }
            }
            assert(name@ != Side::CD.label()) by {
                if name@ == Side::CD.label() {
                    assert(name@[0] == 'C' && name@[1] == 'D');
                }
            }
            assert(name@ != Side::DA.label()) by {
                if name@ == Side::DA.label() {
                    assert(name@[0] == 'D' && name@[1] == 'A');
                }
            }
            None
        }
    }

    /// The two-letter name of the side.
    pub fn name(self) -> (text: &'static str)
        ensures
            text@ == self.label(),
    {
        match self {
            Side::AB => {
                proof {
                    reveal_strlit("AB");
                }
                assert("AB"@ =~= seq!['A', 'B']);
                "AB"
            },
            Side::BC => {
                proof {
                    reveal_strlit("BC");
                }
                assert("BC"@ =~= seq!['B', 'C']);
                "BC"
            },
            Side::CD => {
                proof {
                    reveal_strlit("CD");
                }
                assert("CD"@ =~= seq!['C', 'D']);
                "CD"
            },
            Side::DA => {
                proof {
                    reveal_strlit("DA");
                }
                assert("DA"@ =~= seq!['D', 'A']);
                "DA"
            },
        }
    }

    /// The vertices at which the side begins and ends.
    pub fn endpoints(self) -> (ends: (Vertex, Vertex))
        ensures
            ends.0 == self.start(),
            ends.1 == self.end(),
            ends.1 == ends.0.following(),
    {
        match self {
            Side::AB => (Vertex::A, Vertex::B),
            Side::BC => (Vertex::B, Vertex::C),
            Side::CD => (Vertex::C, Vertex::D),
            Side::DA => (Vertex::D, Vertex::A),
        }
    }

    /// The side on the other side of the quadrilateral.
    pub fn opposite(self) -> (s: Side)
        ensures
            s == self.facing(),
    {
        match self {
            Side::AB => Side::CD,
            Side::BC => Side::DA,
            Side::CD => Side::AB,
            Side::DA => Side::BC,
        }
    }
}

} // verus!
