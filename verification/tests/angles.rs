use simple_cad::angles::interior_angle;
use simple_cad::error::SolveError;
use simple_cad::ident::Vertex;
use simple_cad::measures::{AngleSet, SignedAngles};
use simple_cad::quadrilateral::Quadrilateral;

fn angles(a: Option<i64>, b: Option<i64>, c: Option<i64>, d: Option<i64>) -> AngleSet {
    AngleSet { a, b, c, d }
}

const D90: i64 = 90_000_000;

#[test]
fn interior_angle_is_the_absolute_value_within_a_half_turn() {
    assert_eq!(interior_angle(0), 0);
    assert_eq!(interior_angle(90_000_000), 90_000_000);
    assert_eq!(interior_angle(-90_000_000), 90_000_000);
    assert_eq!(interior_angle(180_000_000), 180_000_000);
    assert_eq!(interior_angle(-180_000_000), 180_000_000);
    assert_eq!(interior_angle(1), 1);
    assert_eq!(interior_angle(-1), 1);
    assert_eq!(interior_angle(123_456_789), 123_456_789);
}

#[test]
fn interior_angle_folds_reflex_angles() {
    assert_eq!(interior_angle(270_000_000), 90_000_000);
    assert_eq!(interior_angle(180_000_001), 179_999_999);
    assert_eq!(interior_angle(359_999_999), 1);
    assert_eq!(interior_angle(360_000_000), 0);
    assert_eq!(interior_angle(450_000_000), 90_000_000);
    assert_eq!(interior_angle(-270_000_000), 90_000_000);
    assert_eq!(interior_angle(-360_000_000), 0);
    assert_eq!(interior_angle(-540_000_000), 180_000_000);
}

#[test]
fn interior_angle_at_the_ends_of_the_range() {
    assert_eq!(i64::MAX % 360_000_000, 54_775_807);
    assert_eq!(interior_angle(i64::MAX), 54_775_807);
    assert_eq!(interior_angle(-i64::MAX), 54_775_807);
    assert_eq!(interior_angle(i64::MIN), 54_775_808);
}

#[test]
fn four_angles_must_sum_to_a_full_turn() {
    let good = angles(Some(D90), Some(D90), Some(D90), Some(D90));
    assert_eq!(good.complete(), Ok(good));
    let slack_up = angles(Some(D90), Some(D90), Some(D90), Some(D90 + 500_000));
    assert_eq!(slack_up.complete(), Ok(slack_up));
    let slack_down = angles(Some(D90), Some(D90), Some(D90), Some(D90 - 500_000));
    assert_eq!(slack_down.complete(), Ok(slack_down));
    let over = angles(Some(D90), Some(D90), Some(D90), Some(D90 + 500_001));
    assert_eq!(over.complete(), Err(SolveError::AngleSumInvalid { sum_udeg: 360_500_001 }));
    let under = angles(Some(D90), Some(D90), Some(D90), Some(D90 - 500_001));
    assert_eq!(under.complete(), Err(SolveError::AngleSumInvalid { sum_udeg: 359_499_999 }));
}

#[test]
fn three_angles_give_the_fourth() {
    let d_missing = angles(Some(80_000_000), Some(100_000_000), Some(70_000_000), None);
    assert_eq!(
        d_missing.complete(),
        Ok(angles(Some(80_000_000), Some(100_000_000), Some(70_000_000), Some(110_000_000)))
    );
    let a_missing = angles(None, Some(100_000_000), Some(70_000_000), Some(110_000_000));
    assert_eq!(
        a_missing.complete(),
        Ok(angles(Some(80_000_000), Some(100_000_000), Some(70_000_000), Some(110_000_000)))
    );
    let b_missing = angles(Some(1), None, Some(2), Some(3));
    assert_eq!(b_missing.complete(), Ok(angles(Some(1), Some(359_999_994), Some(2), Some(3))));
    let c_missing = angles(Some(D90), Some(D90), None, Some(179_999_999));
    assert_eq!(c_missing.complete(), Ok(angles(Some(D90), Some(D90), Some(1), Some(179_999_999))));
}

#[test]
fn fourth_angle_must_lie_strictly_inside_a_full_turn() {
    let full = angles(Some(120_000_000), Some(120_000_000), Some(120_000_000), None);
    assert_eq!(full.complete(), Err(SolveError::InvalidDerivedAngle { value_udeg: 0 }));
    let over = angles(Some(120_000_000), None, Some(120_000_000), Some(130_000_000));
    assert_eq!(over.complete(), Err(SolveError::InvalidDerivedAngle { value_udeg: -10_000_000 }));
    let nothing = angles(None, Some(0), Some(0), Some(0));
    assert_eq!(nothing.complete(), Err(SolveError::InvalidDerivedAngle { value_udeg: 360_000_000 }));
    let negative = angles(Some(-10), Some(0), Some(0), None);
    assert_eq!(negative.complete(), Err(SolveError::InvalidDerivedAngle { value_udeg: 360_000_010 }));
}

#[test]
fn angle_sum_does_not_overflow() {
    let huge = angles(Some(i64::MAX), Some(i64::MAX), Some(i64::MAX), Some(i64::MAX));
    assert_eq!(huge.sum(), 4 * (i64::MAX as i128));
    assert_eq!(
        huge.complete(),
        Err(SolveError::AngleSumInvalid { sum_udeg: 4 * (i64::MAX as i128) })
    );
    let low = angles(Some(i64::MIN), Some(i64::MIN), None, Some(i64::MIN));
    assert_eq!(
        low.complete(),
        Err(SolveError::InvalidDerivedAngle { value_udeg: 360_000_000 - 3 * (i64::MIN as i128) })
    );
}

#[test]
fn two_or_fewer_angles_stay_as_they_are() {
    let two = angles(Some(500_000_000), None, Some(-3), None);
    assert_eq!(two.complete(), Ok(two));
    let one = angles(None, None, Some(D90), None);
    assert_eq!(one.complete(), Ok(one));
    let none = angles(None, None, None, None);
    assert_eq!(none.complete(), Ok(none));
}

#[test]
fn adjacent_angles_are_found_around_the_corner() {
    assert!(angles(Some(1), Some(1), None, None).has_adjacent_angles());
    assert!(angles(None, Some(1), Some(1), None).has_adjacent_angles());
    assert!(angles(None, None, Some(1), Some(1)).has_adjacent_angles());
    assert!(angles(Some(1), None, None, Some(1)).has_adjacent_angles());
    assert!(!angles(Some(1), None, Some(1), None).has_adjacent_angles());
    assert!(!angles(None, Some(1), None, Some(1)).has_adjacent_angles());
    assert!(!angles(Some(1), None, None, None).has_adjacent_angles());
    assert!(!angles(None, None, None, None).has_adjacent_angles());
    assert!(angles(Some(1), Some(1), Some(1), None).has_adjacent_angles());
}

#[test]
fn first_missing_angle_follows_the_order_of_the_vertices() {
    assert_eq!(angles(None, None, None, None).first_missing(), Some(Vertex::A));
    assert_eq!(angles(Some(1), None, None, None).first_missing(), Some(Vertex::B));
    assert_eq!(angles(Some(1), Some(1), None, None).first_missing(), Some(Vertex::C));
    assert_eq!(angles(Some(1), Some(1), Some(1), None).first_missing(), Some(Vertex::D));
    assert_eq!(angles(Some(1), Some(1), Some(1), Some(1)).first_missing(), None);
    assert_eq!(angles(None, Some(1), None, Some(1)).first_missing(), Some(Vertex::A));
}

#[test]
fn unknown_angles_are_filled_from_the_measurement() {
    let known = angles(Some(D90), None, Some(77), None);
    let measured = SignedAngles { a: 1, b: -100_000_000, c: 3, d: 200_000_000 };
    assert_eq!(
        known.fill_from(&measured),
        angles(Some(D90), Some(100_000_000), Some(77), Some(160_000_000))
    );
}

#[test]
fn quadrilateral_applies_the_angle_sum_in_place() {
    let mut q = Quadrilateral::new();
    q.set_angle(Vertex::A, Some(D90));
    q.set_angle(Vertex::B, Some(D90));
    q.set_angle(Vertex::D, Some(100_000_000));
    assert_eq!(q.calculate_missing_angles(), Ok(()));
    assert_eq!(q.get_angle(Vertex::C), Some(80_000_000));
    let mut bad = Quadrilateral::new();
    bad.set_angle(Vertex::A, Some(200_000_000));
    bad.set_angle(Vertex::B, Some(100_000_000));
    bad.set_angle(Vertex::C, Some(100_000_000));
    let before = bad;
    assert_eq!(
        bad.calculate_missing_angles(),
        Err(SolveError::InvalidDerivedAngle { value_udeg: -40_000_000 })
    );
    assert_eq!(bad, before);
}

#[test]
fn quadrilateral_fills_unknown_angles_from_the_vertices() {
    let mut q = Quadrilateral::new();
    q.set_angle(Vertex::B, Some(D90));
    q.calculate_angles_from_vertices(&SignedAngles { a: -45_000_000, b: 1, c: 135_000_000, d: -D90 });
    assert_eq!(q.angles, angles(Some(45_000_000), Some(D90), Some(135_000_000), Some(D90)));
}
