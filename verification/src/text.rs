//! The decimal text of the numbers that notifications show.

use vstd::prelude::*;
use num_format::{Locale, ToFormattedString};
use crate::gecko::{PERCENT_UNIT, PRICE_UNIT};

verus! {

/// The character of one decimal digit.
pub open spec fn digit_char(digit: int) -> char {
    if digit == 0 {
        '0'
    } else if digit == 1 {
        '1'
    } else if digit == 2 {
        '2'
    } else if digit == 3 {
        '3'
    } else if digit == 4 {
        '4'
    } else if digit == 5 {
        '5'
    } else if digit == 6 {
        '6'
    } else if digit == 7 {
        '7'
    } else if digit == 8 {
        '8'
    } else {
        '9'
    }
}

/// The digits of `n` in base ten, without leading zeros.
pub open spec fn decimal(n: nat) -> Seq<char>
    decreases n,
{
    if n < 10 {
        seq![digit_char(n as int)]
    } else {
        decimal(n / 10) + seq![digit_char((n % 10) as int)]
    }
}

/// The digits of `n`, with a minus sign in front when it is negative.
pub open spec fn signed_decimal(n: int) -> Seq<char> {
    if n < 0 {
        seq!['-'] + decimal((-n) as nat)
    } else {
        decimal(n as nat)
    }
}

/// Whether `unit` is 1, 10, 100 and so on.
pub open spec fn is_power_of_ten(unit: nat) -> bool
    decreases unit,
{
    unit == 1 || (unit >= 10 && unit % 10 == 0 && is_power_of_ten(unit / 10))
}

/// The digits after the decimal point of `value / unit`, for `value < unit`,
/// without trailing zeros.
pub open spec fn fraction(value: nat, unit: nat) -> Seq<char>
    decreases unit,
{
    if value == 0 || unit < 10 {
        Seq::empty()
    } else {
        seq![digit_char((value / (unit / 10)) as int)] + fraction(value % (unit / 10), unit / 10)
    }
}

/// The text of `value / unit`, where `unit` is a power of ten: the whole
/// part, then, unless the rest is zero, a point and the digits of the rest
/// without trailing zeros.
pub open spec fn fixed_point(value: nat, unit: nat) -> Seq<char> {
    if value % unit == 0 {
        decimal(value / unit)
    } else {
        decimal(value / unit) + seq!['.'] + fraction(value % unit, unit)
    }
}

/// The text of `value / unit` with its sign.
pub open spec fn signed_fixed_point(value: int, unit: nat) -> Seq<char> {
    if value < 0 {
        seq!['-'] + fixed_point((-value) as nat, unit)
    } else {
        fixed_point(value as nat, unit)
    }
}

/// The three digits of `n`, for `n < 1000`, with leading zeros.
pub open spec fn three_digits(n: nat) -> Seq<char> {
    seq![digit_char((n / 100) as int), digit_char((n / 10 % 10) as int), digit_char((n % 10) as int)]
}

/// The digits of `n` in groups of three from the right, with a comma between
/// the groups.
pub open spec fn grouped(n: nat) -> Seq<char>
    decreases n,
{
    if n < 1000 {
        decimal(n)
    } else {
        grouped(n / 1000) + seq![','] + three_digits(n % 1000)
    }
}

/// The text of one digit.
fn digit_str(digit: u8) -> (text: &'static str)
    requires
        digit < 10,
    ensures
        text@ == seq![digit_char(digit as int)],
{
    proof {
        reveal_strlit("0");
        reveal_strlit("1");
        reveal_strlit("2");
        reveal_strlit("3");
        reveal_strlit("4");
        reveal_strlit("5");
        reveal_strlit("6");
        reveal_strlit("7");
        reveal_strlit("8");
        reveal_strlit("9");
    }
    match digit {
        0 => "0",
        1 => "1",
        2 => "2",
        3 => "3",
        4 => "4",
        5 => "5",
        6 => "6",
        7 => "7",
        8 => "8",
        _ => "9",
    }
}

/// Appends the digits of `n`.
fn push_decimal(out: &mut String, n: u128)
    ensures
        final(out)@ == old(out)@ + decimal(n as nat),
    decreases n,
{
    if n >= 10 {
        push_decimal(out, n / 10);
    }
    out.append(digit_str((n % 10) as u8));
}

/// Appends the digits of `n`, after a minus sign when it is negative.
fn push_signed_decimal(out: &mut String, n: i128)
    ensures
        final(out)@ == old(out)@ + signed_decimal(n as int),
{
    if n < 0 {
        proof {
            reveal_strlit("-");
        }
        out.append("-");
        let magnitude: u128 = ((-(n + 1)) as u128) + 1;
        push_decimal(out, magnitude);
    } else {
        push_decimal(out, n as u128);
    }
}

/// Appends the digits after the decimal point of `value / unit`.
fn push_fraction(out: &mut String, value: u128, unit: u128)
    requires
        is_power_of_ten(unit as nat),
        value < unit,
    ensures
        final(out)@ == old(out)@ + fraction(value as nat, unit as nat),
    decreases unit,
{
    if value != 0 && unit >= 10 {
        let next: u128 = unit / 10;
        assert(value / next < 10) by (nonlinear_arith)
            requires
                value < unit,
                unit == 10 * next,
                next > 0,
        ;
        assert(value % next < next) by (nonlinear_arith)
            requires
                next > 0,
        ;
        out.append(digit_str((value / next) as u8));
        push_fraction(out, value % next, next);
    }
}

/// Appends the text of `value / unit`.
fn push_fixed_point(out: &mut String, value: u128, unit: u128)
    requires
        is_power_of_ten(unit as nat),
    ensures
        final(out)@ == old(out)@ + fixed_point(value as nat, unit as nat),
{
    push_decimal(out, value / unit);
    let rest: u128 = value % unit;
    if rest != 0 {
        proof {
            reveal_strlit(".");
        }
        out.append(".");
        push_fraction(out, rest, unit);
    }
}

/// Appends the text of `value / unit` with its sign.
fn push_signed_fixed_point(out: &mut String, value: i128, unit: u128)
    requires
        is_power_of_ten(unit as nat),
    ensures
        final(out)@ == old(out)@ + signed_fixed_point(value as int, unit as nat),
{
    if value < 0 {
        proof {
            reveal_strlit("-");
        }
        out.append("-");
        let magnitude: u128 = ((-(value + 1)) as u128) + 1;
        push_fixed_point(out, magnitude, unit);
    } else {
        push_fixed_point(out, value as u128, unit);
    }
}

/// The text of `n` with a comma between groups of three digits.
///
/// Calls `num_format::ToFormattedString::to_formatted_string` with
/// `num_format::Locale::en`, whose separator is a comma and whose groups are
/// of three digits. The contract claims that the text is the digits of `n`
/// with a comma before every group of three that is not the first.
#[verifier::external_body]
pub(crate) fn format_grouped(n: u64) -> (text: String)
    ensures
        text@ == grouped(n as nat),
{
    n.to_formatted_string(&Locale::en)
}

/// The text of `n` in base ten.
pub fn decimal_text(n: u128) -> (text: String)
    ensures
        text@ == decimal(n as nat),
{
    let mut text = String::new();
    push_decimal(&mut text, n);
    text
}

/// The text of `n` in base ten, with its sign.
pub fn signed_decimal_text(n: i128) -> (text: String)
    ensures
        text@ == signed_decimal(n as int),
{
    let mut text = String::new();
    push_signed_decimal(&mut text, n);
    text
}

/// The text of a change of `basis_points` as a percentage: a hundredth of
/// the number, with at most two digits after the point.
pub fn percent_text(basis_points: i128) -> (text: String)
    ensures
        text@ == signed_fixed_point(basis_points as int, PERCENT_UNIT as nat),
{
    proof {
        reveal_with_fuel(is_power_of_ten, 3);
    }
    let mut text = String::new();
    push_signed_fixed_point(&mut text, basis_points, PERCENT_UNIT);
    text
}

/// The text of a price: the number of price units divided by `PRICE_UNIT`,
/// with at most twelve digits after the point.
pub fn price_text(price: u64) -> (text: String)
    ensures
        text@ == fixed_point(price as nat, PRICE_UNIT as nat),
{
    proof {
        reveal_with_fuel(is_power_of_ten, 13);
    }
    let mut text = String::new();
    push_fixed_point(&mut text, price as u128, PRICE_UNIT);
    text
}

} // verus!
