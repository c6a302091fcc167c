//! Non-negative decimal numbers with three fractional digits, and their text.
//!
//! Lengths in millimetres and the scale factor are held as a whole number of
//! thousandths, so that page geometry is exact and prints the same everywhere.

use vstd::prelude::*;

verus! {

/// The character of one decimal digit.
pub open spec fn digit_char(d: nat) -> char
    recommends
        d < 10,
{
    (48 + d) as char
}

/// The decimal digits of `n`, most significant first, without leading zeros.
pub open spec fn nat_text(n: nat) -> Seq<char>
    decreases n,
{
    if n < 10 {
        seq![digit_char(n)]
    } else {
        nat_text(n / 10).push(digit_char(n % 10))
    }
}

/// The fractional part of a number of thousandths below 1000: empty for zero,
/// otherwise a point and up to three digits, without trailing zeros.
pub open spec fn fraction_text(f: nat) -> Seq<char>
    recommends
        f < 1000,
{
    if f == 0 {
        Seq::<char>::empty()
    } else if f % 100 == 0 {
        seq!['.', digit_char(f / 100)]
    } else if f % 10 == 0 {
        seq!['.', digit_char(f / 100), digit_char((f / 10) % 10)]
    } else {
        seq!['.', digit_char(f / 100), digit_char((f / 10) % 10), digit_char(f % 10)]
    }
}

/// The shortest decimal text of `thousandths / 1000`: `210000` reads `210`,
/// `215900` reads `215.9`, `500` reads `0.5`.
pub open spec fn decimal_text(thousandths: nat) -> Seq<char> {
    nat_text(thousandths / 1000) + fraction_text(thousandths % 1000)
}

/// A non-negative decimal number with three fractional digits.
#[derive(Clone, Copy, Debug, PartialEq, Eq, Structural)]
pub struct Decimal {
    /// The number, multiplied by one thousand.
    pub thousandths: u32,
}

impl Decimal {
    /// The number `thousandths / 1000`.
    pub fn from_thousandths(thousandths: u32) -> (d: Decimal)
        ensures
            d.thousandths == thousandths,
    {
        Decimal { thousandths }
    }

    /// The text of the number, as [`decimal_text`] defines it.
    pub fn to_text(&self) -> (text: String)
        ensures
            text@ == decimal_text(self.thousandths as nat),
    {
        let mut text = String::new();
        push_decimal(&mut text, *self);
        text
    }
}

/// The character of the digit `d`.
fn digit(d: u32) -> (c: char)
    requires
        d < 10,
    ensures
        c == digit_char(d as nat),
{
    if d == 0 {
        '0'
    } else if d == 1 {
        '1'
    } else if d == 2 {
        '2'
    } else if d == 3 {
        '3'
    } else if d == 4 {
        '4'
    } else if d == 5 {
        '5'
    } else if d == 6 {
        '6'
    } else if d == 7 {
        '7'
    } else if d == 8 {
        '8'
    } else {
        '9'
    }
}

/// Appends the decimal digits of `n` to `out`.
pub fn push_nat(out: &mut String, n: u32)
    ensures
        final(out)@ == old(out)@ + nat_text(n as nat),
    decreases n,
{
    if n < 10 {
        out.push(digit(n));
    } else {
        push_nat(out, n / 10);
        out.push(digit(n % 10));
    }
}

/// Appends the text of `value` to `out`.
pub fn push_decimal(out: &mut String, value: Decimal)
    ensures
        final(out)@ == old(out)@ + decimal_text(value.thousandths as nat),
{
    let whole: u32 = value.thousandths / 1000;
    let f: u32 = value.thousandths % 1000;
    push_nat(out, whole);
    if f != 0 {
        out.push('.');
        out.push(digit(f / 100));
        if f % 100 != 0 {
            out.push(digit((f / 10) % 10));
            if f % 10 != 0 {
                out.push(digit(f % 10));
            }
        }
    }
}

} // verus!
