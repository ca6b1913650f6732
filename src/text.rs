use vstd::prelude::*;

use crate::UNITS_PER_DEGREE;

verus! {

/// The number of decimal places of a fixed-point unit.
pub const FRACTION_DIGITS: u64 = 7;

/// The character of the decimal digit `d`.
pub open spec fn digit_char(d: int) -> char {
    if d == 0 {
        '0'
    } else if d == 1 {
        '1'
    } else if d == 2 {
        '2'
    } else if d == 3 {
        '3'
    } else if d == 4 {
        '4'
    } else if d == 5 {
        '5'
    } else if d == 6 {
        '6'
    } else if d == 7 {
        '7'
    } else if d == 8 {
        '8'
    } else {
        '9'
    }
}

/// The decimal digits of `n`, without leading zeros (`"0"` for zero).
pub open spec fn decimal_digits(n: nat) -> Seq<char>
    decreases n,
{
    if n < 10 {
        seq![digit_char(n as int)]
    } else {
        decimal_digits(n / 10).push(digit_char((n % 10) as int))
    }
}

/// The last `k` decimal digits of `n`, leading zeros included.
pub open spec fn padded_digits(n: nat, k: nat) -> Seq<char>
    decreases k,
{
    if k == 0 {
        seq![]
    } else {
        padded_digits(n / 10, (k - 1) as nat).push(digit_char((n % 10) as int))
    }
}

/// The last `k` decimal digits of `n` with their trailing zeros dropped.
pub open spec fn fraction_digits(n: nat, k: nat) -> Seq<char>
    decreases k,
{
    if k == 0 {
        seq![]
    } else if n % 10 == 0 {
        fraction_digits(n / 10, (k - 1) as nat)
    } else {
        padded_digits(n, k)
    }
}

/// A non-negative angle of `units` fixed-point units written in degrees:
/// the whole degrees, then, unless the angle is whole, a point and the
/// fraction without trailing zeros (`"45"`, `"12.5"`, `"0.0000001"`).
pub open spec fn degrees_text(units: nat) -> Seq<char> {
    let whole = units / (UNITS_PER_DEGREE as nat);
    let fraction = units % (UNITS_PER_DEGREE as nat);
    if fraction == 0 {
        decimal_digits(whole)
    } else {
        decimal_digits(whole) + seq!['.'] + fraction_digits(fraction, FRACTION_DIGITS as nat)
    }
}

/// A signed angle written as its magnitude in degrees, a space, the degree
/// sign and the letter that names its side: `positive` for zero and above,
/// `negative` below (`"45 \u{b0}N"`, `"12.5 \u{b0}S"`).
pub open spec fn signed_text(v: int, positive: char, negative: char) -> Seq<char> {
    if v >= 0 {
        degrees_text(v as nat) + seq![' ', '\u{b0}', positive]
    } else {
        degrees_text((-v) as nat) + seq![' ', '\u{b0}', negative]
    }
}

/// Relies on `String::push`, which appends one character.
#[verifier::external_body]
pub(crate) fn push_char(s: &mut String, c: char)
    ensures
        final(s)@ == old(s)@.push(c),
{
    s.push(c)
}

/// Appends the decimal digit `d`.
fn push_digit(s: &mut String, d: u64)
    requires
        d < 10,
    ensures
        final(s)@ == old(s)@.push(digit_char(d as int)),
{
    let c = if d == 0 {
        '0'
    } else if d == 1 {
        '1'
    } else if d == 2 {
        '2'
    } else if d == 3 {
        '3'
    } else if d == 4 {
        '4'
    } else if d == 5 {
        '5'
    } else if d == 6 {
        '6'
    } else if d == 7 {
        '7'
    } else if d == 8 {
        '8'
    } else {
        '9'
    };
    push_char(s, c);
}

/// Appends the decimal digits of `n`.
fn push_decimal(s: &mut String, n: u64)
    ensures
        final(s)@ == old(s)@ + decimal_digits(n as nat),
    decreases n,
{
    if n >= 10 {
        push_decimal(s, n / 10);
    }
    push_digit(s, n % 10);
}

/// Appends the last `k` decimal digits of `n`, leading zeros included.
fn push_padded(s: &mut String, n: u64, k: u64)
    ensures
        final(s)@ == old(s)@ + padded_digits(n as nat, k as nat),
    decreases k,
{
    if k > 0 {
        push_padded(s, n / 10, k - 1);
        push_digit(s, n % 10);
    }
}

/// Appends the last `k` decimal digits of `n` with their trailing zeros
/// dropped.
fn push_fraction(s: &mut String, n: u64, k: u64)
    ensures
        final(s)@ == old(s)@ + fraction_digits(n as nat, k as nat),
    decreases k,
{
    if k > 0 {
        if n % 10 == 0 {
            push_fraction(s, n / 10, k - 1);
        } else {
            push_padded(s, n, k);
        }
    }
}

/// Appends a non-negative angle written in degrees.
pub fn push_degrees(s: &mut String, units: u64)
    ensures
        final(s)@ == old(s)@ + degrees_text(units as nat),
{
    let per_degree = UNITS_PER_DEGREE as u64;
    let whole = units / per_degree;
    let fraction = units % per_degree;
    push_decimal(s, whole);
    if fraction != 0 {
        push_char(s, '.');
        push_fraction(s, fraction, FRACTION_DIGITS);
    }
}

/// Appends a signed angle in degrees with the letter of its side.
pub fn push_signed(s: &mut String, v: i64, positive: char, negative: char)
    requires
        v > i64::MIN,
    ensures
        final(s)@ == old(s)@ + signed_text(v as int, positive, negative),
{
    let side = if v >= 0 {
        push_degrees(s, v as u64);
        positive
    } else {
        push_degrees(s, (-v) as u64);
        negative
    };
    push_char(s, ' ');
    push_char(s, '\u{b0}');
    push_char(s, side);
}

/// Appends the characters of `t`.
pub fn push_str(s: &mut String, t: &str)
    ensures
        final(s)@ == old(s)@ + t@,
{
    s.append(t);
}

} // verus!
