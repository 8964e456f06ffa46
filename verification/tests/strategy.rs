use simple_cad::error::SolveError;
use simple_cad::ident::{Side, Vertex};
use simple_cad::measures::{AngleSet, SideSet};
use simple_cad::quadrilateral::Quadrilateral;
use simple_cad::strategy::{Strategy, STRATEGY_COUNT};

fn sides(mask: [bool; 4]) -> SideSet {
    let v = |b: bool| if b { Some(50_000) } else { None };
    SideSet { ab: v(mask[0]), bc: v(mask[1]), cd: v(mask[2]), da: v(mask[3]) }
}

fn angles(mask: [bool; 4]) -> AngleSet {
    let v = |b: bool| if b { Some(90_000_000) } else { None };
    AngleSet { a: v(mask[0]), b: v(mask[1]), c: v(mask[2]), d: v(mask[3]) }
}

fn masks() -> Vec<[bool; 4]> {
    let mut all = Vec::new();
    for bits in 0..16u8 {
        all.push([bits & 1 != 0, bits & 2 != 0, bits & 4 != 0, bits & 8 != 0]);
    }
    all
}

/// The choice written out as a list of conditions in the order of their
/// precedence.
fn expected(s: [bool; 4], a: [bool; 4]) -> Option<Strategy> {
    let (ab, bc, cd, da) = (s[0], s[1], s[2], s[3]);
    if ab && bc && cd && da {
        if a[0] && a[1] {
            return Some(Strategy::FourSidesAnglesAB);
        }
        if a[1] && a[2] {
            return Some(Strategy::FourSidesAnglesBC);
        }
        if a[2] && a[3] {
            return Some(Strategy::FourSidesAnglesCD);
        }
        if a[3] && a[0] {
            return Some(Strategy::FourSidesAnglesDA);
        }
        if a[0] {
            return Some(Strategy::FourSidesAngleA);
        }
        if a[1] {
            return Some(Strategy::FourSidesAngleB);
        }
        if a[2] {
            return Some(Strategy::FourSidesAngleC);
        }
        if a[3] {
            return Some(Strategy::FourSidesAngleD);
        }
    }
    if ab && bc && da && !cd && a[0] && a[1] {
        return Some(Strategy::ThreeSidesAnglesAB);
    }
    if bc && cd && ab && !da && a[1] && a[2] {
        return Some(Strategy::ThreeSidesAnglesBC);
    }
    if cd && da && bc && !ab && a[2] && a[3] {
        return Some(Strategy::ThreeSidesAnglesCD);
    }
    if da && ab && cd && !bc && a[3] && a[0] {
        return Some(Strategy::ThreeSidesAnglesDA);
    }
    if bc && cd && da && !ab && a[1] && a[2] {
        return Some(Strategy::ThreeSidesAnglesBCOpenAB);
    }
    None
}

#[test]
fn select_follows_the_order_of_precedence_for_every_pattern() {
    for s in masks() {
        for a in masks() {
            assert_eq!(Strategy::select(&sides(s), &angles(a)), expected(s, a), "{:?} {:?}", s, a);
        }
    }
}

#[test]
fn first_pair_wins_when_more_angles_are_known() {
    let all = sides([true; 4]);
    assert_eq!(
        Strategy::select(&all, &angles([true, true, true, true])),
        Some(Strategy::FourSidesAnglesAB)
    );
    assert_eq!(
        Strategy::select(&all, &angles([false, true, true, true])),
        Some(Strategy::FourSidesAnglesBC)
    );
    assert_eq!(
        Strategy::select(&all, &angles([true, false, true, true])),
        Some(Strategy::FourSidesAnglesCD)
    );
    assert_eq!(
        Strategy::select(&all, &angles([true, false, true, false])),
        Some(Strategy::FourSidesAngleA)
    );
    assert_eq!(
        Strategy::select(&all, &angles([false, true, false, true])),
        Some(Strategy::FourSidesAngleB)
    );
}

#[test]
fn open_side_ab_prefers_the_angles_at_c_and_d() {
    let open_ab = sides([false, true, true, true]);
    assert_eq!(
        Strategy::select(&open_ab, &angles([false, true, true, true])),
        Some(Strategy::ThreeSidesAnglesCD)
    );
    assert_eq!(
        Strategy::select(&open_ab, &angles([false, true, true, false])),
        Some(Strategy::ThreeSidesAnglesBCOpenAB)
    );
    assert_eq!(Strategy::select(&open_ab, &angles([true, true, false, false])), None);
}

#[test]
fn index_and_from_index_are_inverse() {
    for i in 0..STRATEGY_COUNT {
        let s = Strategy::from_index(i).unwrap();
        assert_eq!(s.index(), i);
    }
    assert_eq!(Strategy::from_index(STRATEGY_COUNT), None);
    assert_eq!(Strategy::from_index(usize::MAX), None);
    assert_eq!(Strategy::from_index(0), Some(Strategy::FourSidesAnglesAB));
    assert_eq!(Strategy::from_index(12), Some(Strategy::ThreeSidesAnglesBCOpenAB));
}

#[test]
fn closing_side_lies_opposite_the_baseline() {
    assert_eq!(Strategy::FourSidesAnglesAB.closing(), Some(Side::CD));
    assert_eq!(Strategy::FourSidesAnglesBC.closing(), Some(Side::DA));
    assert_eq!(Strategy::FourSidesAnglesCD.closing(), Some(Side::AB));
    assert_eq!(Strategy::FourSidesAnglesDA.closing(), Some(Side::BC));
    assert_eq!(Strategy::ThreeSidesAnglesAB.closing(), Some(Side::CD));
    assert_eq!(Strategy::ThreeSidesAnglesBC.closing(), Some(Side::DA));
    assert_eq!(Strategy::ThreeSidesAnglesCD.closing(), Some(Side::AB));
    assert_eq!(Strategy::ThreeSidesAnglesDA.closing(), Some(Side::BC));
    assert_eq!(Strategy::ThreeSidesAnglesBCOpenAB.closing(), Some(Side::AB));
    assert_eq!(Strategy::FourSidesAngleA.closing(), None);
    assert_eq!(Strategy::FourSidesAngleD.closing(), None);
}

#[test]
fn strategies_name_their_angles_and_their_open_side() {
    assert_eq!(Strategy::FourSidesAnglesDA.first_angle(), Vertex::D);
    assert_eq!(Strategy::FourSidesAnglesDA.second_angle(), Some(Vertex::A));
    assert_eq!(Strategy::FourSidesAnglesDA.missing_side(), None);
    assert!(!Strategy::FourSidesAnglesDA.uses_circles());
    assert_eq!(Strategy::FourSidesAngleC.first_angle(), Vertex::C);
    assert_eq!(Strategy::FourSidesAngleC.second_angle(), None);
    assert!(Strategy::FourSidesAngleC.uses_circles());
    assert_eq!(Strategy::ThreeSidesAnglesBCOpenAB.first_angle(), Vertex::B);
    assert_eq!(Strategy::ThreeSidesAnglesBCOpenAB.second_angle(), Some(Vertex::C));
    assert_eq!(Strategy::ThreeSidesAnglesBCOpenAB.missing_side(), Some(Side::AB));
    assert_eq!(Strategy::ThreeSidesAnglesDA.missing_side(), Some(Side::BC));
}

#[test]
fn applies_wants_the_open_side_unknown() {
    let s = Strategy::ThreeSidesAnglesAB;
    assert!(s.applies(&sides([true, true, false, true]), &angles([true, true, false, false])));
    assert!(!s.applies(&sides([true, true, true, true]), &angles([true, true, false, false])));
    assert!(!s.applies(&sides([true, false, false, true]), &angles([true, true, false, false])));
    assert!(!s.applies(&sides([true, true, false, true]), &angles([true, false, false, false])));
    let four = Strategy::FourSidesAnglesAB;
    assert!(four.applies(&sides([true; 4]), &angles([true, true, false, false])));
    assert!(!four.applies(&sides([true, true, false, true]), &angles([true, true, false, false])));
}

#[test]
fn quadrilateral_reports_an_unsupported_combination() {
    let mut q = Quadrilateral::new();
    q.set_side_um(Side::AB, 100_000);
    q.set_side_um(Side::BC, 80_000);
    q.set_side_um(Side::DA, 80_000);
    q.set_angle(Vertex::B, Some(90_000_000));
    q.set_angle(Vertex::C, Some(90_000_000));
    assert!(q.solvable());
    assert_eq!(q.construct_quadrilateral(), Err(SolveError::UnsupportedCombination));
    assert_eq!(q.plan(), Err(SolveError::UnsupportedCombination));
    q.set_angle(Vertex::A, Some(90_000_000));
    assert_eq!(q.construct_quadrilateral(), Ok(Strategy::ThreeSidesAnglesAB));
    let plan = q.plan().unwrap();
    assert_eq!(plan.strategy, Strategy::ThreeSidesAnglesAB);
    assert_eq!(plan.angles.d, Some(90_000_000));
}

#[test]
fn completed_angle_takes_part_in_the_choice() {
    let mut q = Quadrilateral::new();
    q.set_side_um(Side::AB, 100_000);
    q.set_side_um(Side::BC, 80_000);
    q.set_side_um(Side::CD, 100_000);
    q.set_side_um(Side::DA, 80_000);
    q.set_angle(Vertex::B, Some(90_000_000));
    q.set_angle(Vertex::C, Some(90_000_000));
    q.set_angle(Vertex::D, Some(90_000_000));
    assert_eq!(q.construct_quadrilateral(), Ok(Strategy::FourSidesAnglesBC));
    let plan = q.plan().unwrap();
    assert_eq!(plan.strategy, Strategy::FourSidesAnglesAB);
    assert_eq!(plan.angles.a, Some(90_000_000));
    assert_eq!(q.get_angle(Vertex::A), None);
}
