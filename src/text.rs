//! Decimal rendering of integers and of fixed-point measurements, as shown in messages.

use vstd::prelude::*;
use crate::config::UNIT;

verus! {

/// The character of a decimal digit.
pub open spec fn digit_char(d: nat) -> char {
    if d == 0 { '0' }
    else if d == 1 { '1' }
    else if d == 2 { '2' }
    else if d == 3 { '3' }
    else if d == 4 { '4' }
    else if d == 5 { '5' }
    else if d == 6 { '6' }
    else if d == 7 { '7' }
    else if d == 8 { '8' }
    else { '9' }
}

/// The decimal digits of `n`, without leading zeros ("0" for zero).
pub open spec fn digits_of(n: nat) -> Seq<char>
    decreases n,
{
    if n < 10 {
        seq![digit_char(n)]
    } else {
        digits_of(n / 10).push(digit_char(n % 10))
    }
}

/// The decimal form of an integer, with a leading '-' when negative.
pub open spec fn int_text(v: int) -> Seq<char> {
    if v < 0 {
        seq!['-'] + digits_of((-v) as nat)
    } else {
        digits_of(v as nat)
    }
}

/// The tenths in magnitude `a` (in parts of `UNIT`), rounded to the nearest,
/// ties to even.
pub open spec fn rounded_tenths(a: nat) -> nat {
    let q = (a * 10) / (UNIT as nat);
    let r = (a * 10) % (UNIT as nat);
    if 2 * r > UNIT || (2 * r == UNIT && q % 2 == 1) {
        q + 1
    } else {
        q
    }
}

/// A measurement `v` (in parts of `UNIT`) shown with one decimal; a negative
/// value keeps its '-' even where it rounds to zero.
pub open spec fn measure_text(v: int) -> Seq<char> {
    let a: nat = if v < 0 { (-v) as nat } else { v as nat };
    let t = rounded_tenths(a);
    let sign: Seq<char> = if v < 0 { seq!['-'] } else { seq![] };
    sign + digits_of(t / 10) + seq!['.', digit_char(t % 10)]
}

/// Like `measure_text`, but a value that is not negative gets a '+'.
pub open spec fn signed_measure_text(v: int) -> Seq<char> {
    if v < 0 {
        measure_text(v)
    } else {
        seq!['+'] + measure_text(v)
    }
}

fn digit_str(d: u128) -> (r: &'static str)
    requires
        d < 10,
    ensures
        r@ == seq![digit_char(d as nat)],
{
    proof {
        reveal_strlit("0");
        reveal_strlit("1");
        reveal_strlit("2");
        reveal_strlit("3");
        reveal_strlit("4");
        reveal_strlit("5");
        reveal_strlit("6");
        reveal_strlit("7");
        reveal_strlit("8");
        reveal_strlit("9");
    }
    match d {
        0 => "0",
        1 => "1",
        2 => "2",
        3 => "3",
        4 => "4",
        5 => "5",
        6 => "6",
        7 => "7",
        8 => "8",
        _ => "9",
    }
}

/// Appends the decimal digits of `n` to `s`.
pub fn push_digits(s: &mut String, n: u128)
    ensures
        final(s)@ == old(s)@ + digits_of(n as nat),
    decreases n,
{
    if n >= 10 {
        push_digits(s, n / 10);
    }
    s.append(digit_str(n % 10));
    proof {
        if n >= 10 {
            assert(digits_of(n as nat) == digits_of((n / 10) as nat).push(
                digit_char((n % 10) as nat),
            ));
        } else {
            assert(digits_of(n as nat) == seq![digit_char(n as nat)]);
        }
    }
}

/// Appends the decimal form of `v` to `s`.
pub fn push_int(s: &mut String, v: i64)
    ensures
        final(s)@ == old(s)@ + int_text(v as int),
{
    if v < 0 {
        s.append("-");
        let a: i128 = 0i128 - v as i128;
        push_digits(s, a as u128);
        proof {
            reveal_strlit("-");
        }
    } else {
        push_digits(s, v as u128);
    }
}

/// Appends a measurement (in parts of `UNIT`) to `s`, with one decimal.
pub fn push_measure(s: &mut String, v: i128)
    requires
        -0x1_0000_0000_0000_0000_0000_0000 < v < 0x1_0000_0000_0000_0000_0000_0000,
    ensures
        final(s)@ == old(s)@ + measure_text(v as int),
{
    let a: u128 = if v < 0 {
        s.append("-");
        (0 - v) as u128
    } else {
        v as u128
    };
    let unit: u128 = UNIT as u128;
    let q: u128 = (a * 10) / unit;
    let r: u128 = (a * 10) % unit;
    let t: u128 = if 2 * r > unit || (2 * r == unit && q % 2 == 1) {
        q + 1
    } else {
        q
    };
    push_digits(s, t / 10);
    s.append(".");
    s.append(digit_str(t % 10));
    proof {
        reveal_strlit("-");
        reveal_strlit(".");
        assert(t == rounded_tenths(a as nat));
    }
}

/// Appends a measurement to `s`, with one decimal and always a sign.
pub fn push_signed_measure(s: &mut String, v: i128)
    requires
        -0x1_0000_0000_0000_0000_0000_0000 < v < 0x1_0000_0000_0000_0000_0000_0000,
    ensures
        final(s)@ == old(s)@ + signed_measure_text(v as int),
{
    if v >= 0 {
        s.append("+");
        proof {
            reveal_strlit("+");
        }
    }
    push_measure(s, v);
}

} // verus!
