//! Lengths as text, in centimeters or meters.
//!
//! The text is the one that comes of dividing in binary floating point of
//! 64 bits and writing the quotient with a fixed number of decimal places:
//! a length in micrometers is brought into that format, divided by 1000 to
//! millimeters, divided again to centimeters or meters, each time rounded to
//! the nearest number of the format, and the exact value of the last
//! quotient is rounded to the decimal places with halves to the even digit.

use vstd::prelude::*;
use vstd::arithmetic::power2::{lemma2_to64, lemma2_to64_rest};
use vstd::string::StringExecFns;
use crate::measures::Lengths;
use crate::binary64::{lemma_nearest_binary64_is, nearest_binary64, round_to_binary64, Ratio};
use crate::rounding::{lemma_nearest_even_quotient_is, nearest_even_quotient, round_div_even};

verus! {

/// From this length on, in micrometers, a length is shown in meters: ten
/// meters.
pub const METERS_FROM_UM: i64 = 10_000_000;

/// The character of a decimal digit.
pub open spec fn digit_char(d: int) -> char {
    if d == 0 {
        '0'
    } else if d == 1 {
        '1'
    } else if d == 2 {
        '2'
    } else if d == 3 {
        '3'
    } else if d == 4 {
        '4'
    } else if d == 5 {
        '5'
    } else if d == 6 {
        '6'
    } else if d == 7 {
        '7'
    } else if d == 8 {
        '8'
    } else {
        '9'
    }
}

/// A natural number in decimal digits, without leading zeros.
pub open spec fn decimal(n: nat) -> Seq<char>
    decreases n,
{
    if n < 10 {
        seq![digit_char(n as int)]
    } else {
        decimal(n / 10).push(digit_char((n % 10) as int))
    }
}

/// A number of hundredths as a decimal fraction with two places.
pub open spec fn two_places(hundredths: nat) -> Seq<char> {
    decimal(hundredths / 100) + seq![
        '.',
        digit_char((hundredths / 10 % 10) as int),
        digit_char((hundredths % 10) as int),
    ]
}

/// A number of thousandths as a decimal fraction with three places.
pub open spec fn three_places(thousandths: nat) -> Seq<char> {
    decimal(thousandths / 1000) + seq![
        '.',
        digit_char((thousandths / 100 % 10) as int),
        digit_char((thousandths / 10 % 10) as int),
        digit_char((thousandths % 10) as int),
    ]
}

/// The size of a number without its sign.
pub open spec fn magnitude(n: int) -> nat {
    if n >= 0 {
        n as nat
    } else {
        (-n) as nat
    }
}

/// A length in millimeters as the floating-point format holds it: the
/// micrometers are rounded into the format, divided by 1000, and the
/// quotient is rounded into the format again. The result is a numerator
/// and a denominator.
pub open spec fn millimeters(um: nat) -> (int, int) {
    let held = nearest_binary64(um as int, 1);
    nearest_binary64(held.0, held.1 * 1000)
}

/// Whether a length is shown in meters: only where centimeters are not
/// asked for and the length in millimeters, as the format holds it, is
/// 10000 or more.
pub open spec fn shown_in_meters(um: int, use_cm: bool) -> bool {
    let mm = millimeters(magnitude(um));
    !use_cm && um > 0 && mm.0 >= 10000 * mm.1
}

/// The hundredths of a centimeter that are written for a length: the
/// millimeters are divided by 10 in the format, and the exact quotient
/// times 100 is rounded to a whole number, halves to the even one.
pub open spec fn hundredths_of_cm(um: nat) -> nat {
    let mm = millimeters(um);
    let cm = nearest_binary64(mm.0, mm.1 * 10);
    nearest_even_quotient(cm.0 * 100, cm.1) as nat
}

/// The thousandths of a meter that are written for a length: the
/// millimeters are divided by 1000 in the format, and the exact quotient
/// times 1000 is rounded to a whole number, halves to the even one.
pub open spec fn thousandths_of_m(um: nat) -> nat {
    let mm = millimeters(um);
    let m = nearest_binary64(mm.0, mm.1 * 1000);
    nearest_even_quotient(m.0 * 1000, m.1) as nat
}

/// A length in micrometers as text.
///
/// In meters it has three places and ends in `" m"`. In centimeters it has
/// two places and ends in `" cm"`; a negative length starts with `-`.
pub open spec fn length_text(um: int, use_cm: bool) -> Seq<char> {
    if shown_in_meters(um, use_cm) {
        three_places(thousandths_of_m(magnitude(um))) + seq![' ', 'm']
    } else {
        let sign = if um < 0 {
            seq!['-']
        } else {
            Seq::<char>::empty()
        };
        sign + two_places(hundredths_of_cm(magnitude(um))) + seq![' ', 'c', 'm']
    }
}

/// A length of 1250 micrometers is an eighth of a centimeter, which the
/// floating-point format holds exactly. The half in its third place goes
/// to the even digit: the text is `0.12 cm`.
pub proof fn lemma_exact_half_goes_to_even_digit()
    ensures
        hundredths_of_cm(1250) == 12,
        length_text(1250, true) == seq!['0', '.', '1', '2', ' ', 'c', 'm'],
{
    lemma2_to64();
    lemma2_to64_rest();
    // 1250 = 5497558138880000 / 2^42
    lemma_nearest_binary64_is(1250, 1, 42, 0, 5497558138880000);
    // 1250 / 1000 = 5629499534213120 / 2^52
    lemma_nearest_binary64_is(5497558138880000, 4398046511104000, 52, 0, 5629499534213120);
    assert(millimeters(1250) == (5629499534213120int, 4503599627370496int));
    // 1.25 / 10 = 2^52 / 2^55
    lemma_nearest_binary64_is(5629499534213120, 45035996273704960, 55, 0, 4503599627370496);
    // 100 * 2^52 / 2^55 = 12.5
    lemma_nearest_even_quotient_is(450359962737049600, 36028797018963968, 12);
    reveal_with_fuel(decimal, 2);
    assert(two_places(12) =~= seq!['0', '.', '1', '2']);
    assert(length_text(1250, true) =~= seq!['0', '.', '1', '2', ' ', 'c', 'm']);
}

fn digit_text(d: u128) -> (text: &'static str)
    requires
        d < 10,
    ensures
        text@ == seq![digit_char(d as int)],
{
    proof {
        reveal_strlit("0");
        reveal_strlit("1");
        reveal_strlit("2");
        reveal_strlit("3");
        reveal_strlit("4");
        reveal_strlit("5");
        reveal_strlit("6");
        reveal_strlit("7");
        reveal_strlit("8");
        reveal_strlit("9");
    }
    let text = if d == 0 {
        "0"
    } else if d == 1 {
        "1"
    } else if d == 2 {
        "2"
    } else if d == 3 {
        "3"
    } else if d == 4 {
        "4"
    } else if d == 5 {
        "5"
    } else if d == 6 {
        "6"
    } else if d == 7 {
        "7"
    } else if d == 8 {
        "8"
    } else {
        "9"
    };
    assert(text@ =~= seq![digit_char(d as int)]);
    text
}

fn push_digit(text: &mut String, d: u128)
    requires
        d < 10,
    ensures
        final(text)@ == old(text)@.push(digit_char(d as int)),
{
    let digit = digit_text(d);
    text.append(digit);
    assert(text@ =~= old(text)@.push(digit_char(d as int)));
}

fn push_decimal(text: &mut String, n: u128)
    ensures
        final(text)@ == old(text)@ + decimal(n as nat),
    decreases n,
{
    if n >= 10 {
        push_decimal(text, n / 10);
    }
    push_digit(text, n % 10);
    assert(text@ =~= old(text)@ + decimal(n as nat));
}

/// Writes a natural number in decimal digits.
pub fn decimal_text(n: u64) -> (text: String)
    ensures
        text@ == decimal(n as nat),
{
    let mut text = String::new();
    push_decimal(&mut text, n as u128);
    assert(text@ =~= decimal(n as nat));
    text
}

fn push_two_places(text: &mut String, hundredths: u128)
    ensures
        final(text)@ == old(text)@ + two_places(hundredths as nat),
{
    push_decimal(text, hundredths / 100);
    proof {
        reveal_strlit(".");
    }
    text.append(".");
    push_digit(text, hundredths / 10 % 10);
    push_digit(text, hundredths % 10);
    assert(text@ =~= old(text)@ + two_places(hundredths as nat));
}

fn push_three_places(text: &mut String, thousandths: u128)
    ensures
        final(text)@ == old(text)@ + three_places(thousandths as nat),
{
    push_decimal(text, thousandths / 1000);
    proof {
        reveal_strlit(".");
    }
    text.append(".");
    push_digit(text, thousandths / 100 % 10);
    push_digit(text, thousandths / 10 % 10);
    push_digit(text, thousandths % 10);
    assert(text@ =~= old(text)@ + three_places(thousandths as nat));
}

/// The length in millimeters as the floating-point format holds it.
fn millimeters_held(size: u64) -> (mm: Ratio)
    ensures
        mm.parts() == millimeters(size as nat),
        1 <= mm.den < 0x1_0000_0000_0000_0000,
        mm.num <= 0x4_0000_0000_0000_0000,
        size > 0 ==> mm.num >= 0x10_0000_0000_0000,
{
    let held = round_to_binary64(size as u128, 1);
    assert(held.den <= 0x20_0000_0000_0000) by (nonlinear_arith)
        requires
            held.den == 1 || held.den * size < 0x20_0000_0000_0000 * 1,
            size == 0 ==> held.den == 1,
            held.den >= 1,
    ;
    let mm = round_to_binary64(held.num, held.den * 1000);
    assert(mm.den < 0x1_0000_0000_0000_0000) by (nonlinear_arith)
        requires
            mm.den == 1 || mm.den * held.num < 0x20_0000_0000_0000 * (held.den * 1000),
            held.den <= 0x20_0000_0000_0000,
            size > 0 ==> held.num >= 0x10_0000_0000_0000,
            size == 0 ==> mm.den == 1,
            mm.den >= 1,
    ;
    mm
}

/// Writes a length in centimeters with two places, or in meters with three
/// places where centimeters are not asked for and the length is ten meters
/// or more. The digits are those that dividing in binary floating point
/// of 64 bits and writing the quotient with that many places gives.
pub fn format_length_um(um: i64, use_cm: bool) -> (text: String)
    ensures
        text@ == length_text(um as int, use_cm),
{
    let mut text = String::new();
    let size: u64 = if um >= 0 {
        um as u64
    } else {
        (-(um as i128)) as u64
    };
    let mm = millimeters_held(size);
    if !use_cm && um > 0 && mm.num >= 10000 * mm.den {
        let m = round_to_binary64(mm.num, mm.den * 1000);
        let thousandths = round_div_even(m.num * 1000, m.den);
        push_three_places(&mut text, thousandths);
        proof {
            reveal_strlit(" m");
        }
        text.append(" m");
        assert(text@ =~= length_text(um as int, use_cm));
    } else {
        if um < 0 {
            proof {
                reveal_strlit("-");
            }
            text.append("-");
        }
        let cm = round_to_binary64(mm.num, mm.den * 10);
        let hundredths = round_div_even(cm.num * 100, cm.den);
        push_two_places(&mut text, hundredths);
        proof {
            reveal_strlit(" cm");
        }
        text.append(" cm");
        assert(text@ =~= length_text(um as int, use_cm));
    }
    text
}

/// Whether the lengths of a shape are shown in centimeters: every one of
/// them is shorter than ten meters.
pub fn shown_in_centimeters(lengths: &Lengths) -> (b: bool)
    ensures
        b <==> (lengths.ab < METERS_FROM_UM && lengths.bc < METERS_FROM_UM && lengths.cd
            < METERS_FROM_UM && lengths.da < METERS_FROM_UM),
{
    lengths.ab < METERS_FROM_UM && lengths.bc < METERS_FROM_UM && lengths.cd < METERS_FROM_UM
        && lengths.da < METERS_FROM_UM
}

} // verus!
