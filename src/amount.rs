//! Decimal amounts written as text.

use vstd::prelude::*;

verus! {

/// Whether `c` is one of the ASCII digits `0`..`9`.
pub open spec fn is_decimal_digit(c: char) -> bool {
    '0' <= c && c <= '9'
}

/// The value of a string of decimal digits, most significant digit first.
pub open spec fn decimal_digits_value(s: Seq<char>) -> nat
    decreases s.len(),
{
    if s.len() == 0 {
        0
    } else {
        decimal_digits_value(s.drop_last()) * 10 + ((s.last() as u32) - ('0' as u32)) as nat
    }
}

/// The digits of an unsigned number's text: the text without one leading `+`.
pub open spec fn unsigned_digits(s: Seq<char>) -> Seq<char> {
    if s.len() > 0 && s[0] == '+' {
        s.skip(1)
    } else {
        s
    }
}

/// The unsigned 128-bit number that `s` writes in decimal, if any: an optional
/// `+` followed by at least one digit and nothing else, whose value fits.
pub open spec fn decimal_u128(s: Seq<char>) -> Option<u128> {
    let d = unsigned_digits(s);
    if d.len() > 0 && (forall|i: int| 0 <= i < d.len() ==> is_decimal_digit(#[trigger] d[i]))
        && decimal_digits_value(d) <= u128::MAX {
        Some(decimal_digits_value(d) as u128)
    } else {
        None
    }
}

/// Relies on `str::parse::<u128>`: it accepts an optional `+` followed by
/// decimal digits only, and fails when the value does not fit in 128 bits.
#[verifier::external_body]
pub(crate) fn parse_amount(s: &str) -> (r: Option<u128>)
    ensures
        r == decimal_u128(s@),
{
    s.parse::<u128>().ok()
}

} // verus!
