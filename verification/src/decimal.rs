//! Decimal rendering of integers, for exit-code messages and
//! process-id arguments.

use vstd::prelude::*;

verus! {

/// The character for a single decimal digit.
pub open spec fn digit_char(d: nat) -> char
    recommends
        d < 10,
{
    if d == 0 {
        '0'
    } else if d == 1 {
        '1'
    } else if d == 2 {
        '2'
    } else if d == 3 {
        '3'
    } else if d == 4 {
        '4'
    } else if d == 5 {
        '5'
    } else if d == 6 {
        '6'
    } else if d == 7 {
        '7'
    } else if d == 8 {
        '8'
    } else {
        '9'
    }
}

/// The decimal digits of `n`, most significant first, with no leading
/// zeros (`0` itself is rendered as `"0"`).
pub open spec fn decimal_of(n: nat) -> Seq<char>
    decreases n,
{
    if n < 10 {
        seq![digit_char(n)]
    } else {
        decimal_of(n / 10) + seq![digit_char(n % 10)]
    }
}

/// The decimal form of a signed value: the digits of its magnitude,
/// preceded by a minus sign when it is negative.
pub open spec fn signed_decimal_of(c: int) -> Seq<char> {
    if c < 0 {
        seq!['-'] + decimal_of((-c) as nat)
    } else {
        decimal_of(c as nat)
    }
}

/// The one-character string for a single decimal digit.
fn digit_str(d: u32) -> (r: &'static str)
    requires
        d < 10,
    ensures
        r@ == seq![digit_char(d as nat)],
{
    proof {
        reveal_strlit("0");
        reveal_strlit("1");
        reveal_strlit("2");
        reveal_strlit("3");
        reveal_strlit("4");
        reveal_strlit("5");
        reveal_strlit("6");
        reveal_strlit("7");
        reveal_strlit("8");
        reveal_strlit("9");
    }
    match d {
        0 => "0",
        1 => "1",
        2 => "2",
        3 => "3",
        4 => "4",
        5 => "5",
        6 => "6",
        7 => "7",
        8 => "8",
        _ => "9",
    }
}

/// Renders an unsigned value in decimal.
pub fn u32_decimal(n: u32) -> (r: String)
    ensures
        r@ == decimal_of(n as nat),
    decreases n,
{
    if n < 10 {
        String::from_str(digit_str(n))
    } else {
        let mut digits = u32_decimal(n / 10);
        digits.append(digit_str(n % 10));
        digits
    }
}

/// Renders a signed value in decimal, as `format!("{}", c)` does.
pub fn i32_decimal(c: i32) -> (r: String)
    ensures
        r@ == signed_decimal_of(c as int),
{
    if c >= 0 {
        u32_decimal(c as u32)
    } else {
        let wide: i64 = c as i64;
        let magnitude: u32 = (-wide) as u32;
        proof {
            reveal_strlit("-");
        }
        let mut digits = String::from_str("-");
        let rendered = u32_decimal(magnitude);
        digits.append(rendered.as_str());
        digits
    }
}

} // verus!
