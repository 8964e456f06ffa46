use simple_cad::format::{decimal_text, format_length_um, shown_in_centimeters};
use simple_cad::measures::Lengths;

#[test]
fn centimeters_have_two_places() {
    assert_eq!(format_length_um(100_000, true), "10.00 cm");
    assert_eq!(format_length_um(123_456, true), "12.35 cm");
    assert_eq!(format_length_um(123_449, true), "12.34 cm");
    assert_eq!(format_length_um(0, true), "0.00 cm");
    assert_eq!(format_length_um(1, true), "0.00 cm");
    assert_eq!(format_length_um(49, false), "0.00 cm");
    assert_eq!(format_length_um(51, false), "0.01 cm");
    assert_eq!(format_length_um(990, false), "0.10 cm");
    assert_eq!(format_length_um(9_999_949, false), "999.99 cm");
}

#[test]
fn meters_have_three_places() {
    assert_eq!(format_length_um(10_000_000, false), "10.000 m");
    assert_eq!(format_length_um(12_345_678, false), "12.346 m");
    assert_eq!(format_length_um(12_345_499, false), "12.345 m");
    assert_eq!(format_length_um(1_000_000_000, false), "1000.000 m");
    assert_eq!(format_length_um(10_000_400, false), "10.000 m");
    assert_eq!(format_length_um(10_007_000, false), "10.007 m");
    assert_eq!(format_length_um(10_070_000, false), "10.070 m");
}

#[test]
fn centimeters_are_kept_when_asked_for() {
    assert_eq!(format_length_um(10_000_000, true), "1000.00 cm");
    assert_eq!(format_length_um(12_345_678, true), "1234.57 cm");
}

#[test]
fn below_ten_meters_is_shown_in_centimeters() {
    assert_eq!(format_length_um(9_999_999, false), "1000.00 cm");
    assert_eq!(format_length_um(5_000_000, false), "500.00 cm");
}

#[test]
fn exact_halves_go_to_the_even_digit() {
    assert_eq!(format_length_um(1250, true), "0.12 cm");
    assert_eq!(format_length_um(3750, true), "0.38 cm");
    assert_eq!(format_length_um(6250, true), "0.62 cm");
    assert_eq!(format_length_um(8750, true), "0.88 cm");
    assert_eq!(format_length_um(-1250, true), "-0.12 cm");
    assert_eq!(format_length_um(10_062_500, false), "10.062 m");
    assert_eq!(format_length_um(10_187_500, false), "10.188 m");
}

#[test]
fn other_halves_go_by_the_side_of_the_binary_quotient() {
    assert_eq!(format_length_um(150, true), "0.01 cm");
    for um in [50i64, 150, 250, 350, 450, 550, 650, 750, 850, 950, 1050, 99_950, 123_450] {
        assert_eq!(format_length_um(um, true), float_text(um, true), "{}", um);
        assert_eq!(format_length_um(-um, true), float_text(-um, true), "{}", -um);
    }
    for um in [10_000_500i64, 10_001_500, 12_345_500, 99_999_500, 1_234_567_500] {
        assert_eq!(format_length_um(um, false), float_text(um, false), "{}", um);
    }
}

#[test]
fn negative_lengths_keep_their_sign() {
    assert_eq!(format_length_um(-100_000, true), "-10.00 cm");
    assert_eq!(format_length_um(-100_000, false), "-10.00 cm");
    assert_eq!(format_length_um(-10, true), "-0.00 cm");
    assert_eq!(format_length_um(-20_000_000, false), "-2000.00 cm");
}

#[test]
fn the_ends_of_the_range_are_formatted() {
    assert_eq!(format_length_um(i64::MAX, true), float_text(i64::MAX, true));
    assert_eq!(format_length_um(i64::MAX, false), float_text(i64::MAX, false));
    assert_eq!(format_length_um(i64::MIN, true), float_text(i64::MIN, true));
    assert_eq!(format_length_um(i64::MIN, false), float_text(i64::MIN, false));
    assert!(format_length_um(i64::MAX, false).ends_with(" m"));
    assert!(format_length_um(i64::MIN, false).ends_with(" cm"));
    assert!(format_length_um(i64::MIN, false).starts_with("-9223372036854"));
}

/// The same text by way of floating point.
fn float_text(um: i64, use_cm: bool) -> String {
    let mm = um as f64 / 1000.0;
    if use_cm {
        format!("{:.2} cm", mm / 10.0)
    } else if mm >= 10000.0 {
        format!("{:.3} m", mm / 1000.0)
    } else {
        format!("{:.2} cm", mm / 10.0)
    }
}

fn agrees_with_floating_point(um: i64) {
    assert_eq!(format_length_um(um, true), float_text(um, true), "{} in cm", um);
    assert_eq!(format_length_um(um, false), float_text(um, false), "{}", um);
}

#[test]
fn format_agrees_with_floating_point_on_small_lengths() {
    for um in -20_000i64..=20_000 {
        agrees_with_floating_point(um);
    }
}

#[test]
fn format_agrees_with_floating_point_on_every_half() {
    let mut um: i64 = 50;
    while um < 20_000_000 {
        agrees_with_floating_point(um);
        agrees_with_floating_point(-um);
        um += 100;
    }
}

#[test]
fn format_agrees_with_floating_point_around_ten_meters() {
    for um in 9_990_000i64..=10_010_000 {
        agrees_with_floating_point(um);
    }
}

#[test]
fn format_agrees_with_floating_point_on_scattered_lengths() {
    let mut um: i64 = 1;
    let mut step: i64 = 1;
    while um < i64::MAX / 3 {
        for offset in [-1000i64, -500, -50, -1, 0, 1, 50, 500, 1000] {
            agrees_with_floating_point(um + offset);
            agrees_with_floating_point(-(um + offset));
        }
        um += step;
        step = step * 3 / 2 + 7;
    }
}

#[test]
fn format_agrees_with_floating_point_on_large_lengths() {
    let two_53 = 1i64 << 53;
    for shift in 40..63 {
        let base = 1i64 << shift;
        for offset in -300i64..=300 {
            agrees_with_floating_point(base + offset);
            agrees_with_floating_point(-(base + offset));
            agrees_with_floating_point(base / 3 * 5 + offset * 50);
        }
    }
    for offset in 0..2000 {
        agrees_with_floating_point(two_53 + offset);
        agrees_with_floating_point(i64::MAX - offset);
        agrees_with_floating_point(i64::MIN + offset);
    }
    agrees_with_floating_point(i64::MAX);
    agrees_with_floating_point(i64::MIN);
    agrees_with_floating_point(0);
}

#[test]
fn decimal_text_writes_digits() {
    assert_eq!(decimal_text(0), "0");
    assert_eq!(decimal_text(7), "7");
    assert_eq!(decimal_text(10), "10");
    assert_eq!(decimal_text(1234567890), "1234567890");
    assert_eq!(decimal_text(u64::MAX), "18446744073709551615");
}

#[test]
fn centimeters_are_shown_below_ten_meters() {
    let small = Lengths { ab: 100_000, bc: 80_000, cd: 100_000, da: 80_000 };
    assert!(shown_in_centimeters(&small));
    let edge = Lengths { ab: 9_999_999, bc: 0, cd: 0, da: 0 };
    assert!(shown_in_centimeters(&edge));
    let large = Lengths { ab: 100_000, bc: 80_000, cd: 10_000_000, da: 80_000 };
    assert!(!shown_in_centimeters(&large));
    let unsolved = Lengths { ab: 0, bc: 0, cd: 0, da: 0 };
    assert!(shown_in_centimeters(&unsolved));
}
