use simple_cad::closure::{deviation_um, tolerance_um, validate_length_um};
use simple_cad::error::SolveError;
use simple_cad::ident::Side;
use simple_cad::rounding::round_div;

#[test]
fn tolerance_is_one_micrometer_for_short_sides() {
    assert_eq!(tolerance_um(0), 1);
    assert_eq!(tolerance_um(1), 1);
    assert_eq!(tolerance_um(1000), 1);
    assert_eq!(tolerance_um(1499), 1);
    assert_eq!(tolerance_um(-5000), 1);
    assert_eq!(tolerance_um(i64::MIN), 1);
}

#[test]
fn tolerance_is_a_thousandth_rounded_to_the_nearest() {
    assert_eq!(tolerance_um(1500), 2);
    assert_eq!(tolerance_um(2499), 2);
    assert_eq!(tolerance_um(2500), 3);
    assert_eq!(tolerance_um(100_000), 100);
    assert_eq!(tolerance_um(50_000), 50);
    assert_eq!(tolerance_um(123_456), 123);
    assert_eq!(tolerance_um(123_567), 124);
    assert_eq!(tolerance_um(i64::MAX), 9_223_372_036_854_776);
}

#[test]
fn deviation_is_the_distance() {
    assert_eq!(deviation_um(5, 3), 2);
    assert_eq!(deviation_um(3, 5), 2);
    assert_eq!(deviation_um(-3, 5), 8);
    assert_eq!(deviation_um(7, 7), 0);
    assert_eq!(deviation_um(i64::MAX, i64::MIN), u64::MAX);
    assert_eq!(deviation_um(i64::MIN, i64::MAX), u64::MAX);
}

#[test]
fn length_within_tolerance_passes() {
    assert_eq!(validate_length_um(Side::CD, 100_000, 100_000), Ok(()));
    assert_eq!(validate_length_um(Side::CD, 100_100, 100_000), Ok(()));
    assert_eq!(validate_length_um(Side::CD, 99_900, 100_000), Ok(()));
    assert_eq!(validate_length_um(Side::AB, 501, 500), Ok(()));
    assert_eq!(validate_length_um(Side::AB, 499, 500), Ok(()));
    assert_eq!(validate_length_um(Side::AB, 1, 0), Ok(()));
}

#[test]
fn length_beyond_tolerance_fails() {
    assert_eq!(
        validate_length_um(Side::CD, 100_101, 100_000),
        Err(SolveError::ClosureMismatch {
            side: Side::CD,
            computed_um: 100_101,
            expected_um: 100_000,
            deviation_basis_points: Some(10),
        })
    );
    assert_eq!(
        validate_length_um(Side::DA, 99_899, 100_000),
        Err(SolveError::ClosureMismatch {
            side: Side::DA,
            computed_um: 99_899,
            expected_um: 100_000,
            deviation_basis_points: Some(10),
        })
    );
    assert_eq!(
        validate_length_um(Side::AB, 502, 500),
        Err(SolveError::ClosureMismatch {
            side: Side::AB,
            computed_um: 502,
            expected_um: 500,
            deviation_basis_points: Some(40),
        })
    );
}

#[test]
fn closure_mismatch_reports_the_relative_deviation() {
    assert_eq!(
        validate_length_um(Side::CD, 100_000, 50_000),
        Err(SolveError::ClosureMismatch {
            side: Side::CD,
            computed_um: 100_000,
            expected_um: 50_000,
            deviation_basis_points: Some(10_000),
        })
    );
    assert_eq!(
        validate_length_um(Side::BC, 12_345, 30_000),
        Err(SolveError::ClosureMismatch {
            side: Side::BC,
            computed_um: 12_345,
            expected_um: 30_000,
            deviation_basis_points: Some(5_885),
        })
    );
}

#[test]
fn closure_mismatch_without_a_positive_expected_length() {
    assert_eq!(
        validate_length_um(Side::AB, 2, 0),
        Err(SolveError::ClosureMismatch {
            side: Side::AB,
            computed_um: 2,
            expected_um: 0,
            deviation_basis_points: None,
        })
    );
    assert_eq!(
        validate_length_um(Side::AB, 10, -10),
        Err(SolveError::ClosureMismatch {
            side: Side::AB,
            computed_um: 10,
            expected_um: -10,
            deviation_basis_points: None,
        })
    );
}

#[test]
fn closure_check_at_the_ends_of_the_range() {
    assert_eq!(
        validate_length_um(Side::AB, i64::MIN, i64::MAX),
        Err(SolveError::ClosureMismatch {
            side: Side::AB,
            computed_um: i64::MIN,
            expected_um: i64::MAX,
            deviation_basis_points: Some(20_000),
        })
    );
    assert_eq!(validate_length_um(Side::AB, i64::MAX, i64::MAX), Ok(()));
}

#[test]
fn round_div_rounds_halves_upward() {
    assert_eq!(round_div(0, 100), 0);
    assert_eq!(round_div(49, 100), 0);
    assert_eq!(round_div(50, 100), 1);
    assert_eq!(round_div(149, 100), 1);
    assert_eq!(round_div(150, 100), 2);
    assert_eq!(round_div(250, 100), 3);
    assert_eq!(round_div(7, 1), 7);
    assert_eq!(round_div(7, 2), 4);
    assert_eq!(round_div(u128::MAX, 1), u128::MAX);
    assert_eq!(round_div(u128::MAX, 2), 1u128 << 127);
    assert_eq!(round_div(5, u128::MAX), 0);
}
