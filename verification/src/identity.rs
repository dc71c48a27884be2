//! Identifiers for handlers and workspaces, drawn by the `uuid` crate.

use vstd::prelude::*;
use vstd::arithmetic::power::pow;

verus! {

/// The hex digit of `id` at place `k`, counted from the most significant
/// digit: a number from 0 to 15.
pub open spec fn hex_digit(id: u128, k: int) -> int {
    (id as int / pow(16, (31 - k) as nat)) % 16
}

/// The digits of a random identifier that are not random: the version is 4
/// and the variant is the one of RFC 9562.
pub open spec fn is_random_id(id: u128) -> bool {
    &&& hex_digit(id, 12) == 4
    &&& 8 <= hex_digit(id, 16) <= 11
}

pub open spec fn lower_hex(digit: int) -> char {
    if digit == 0 {
        '0'
    } else if digit == 1 {
        '1'
    } else if digit == 2 {
        '2'
    } else if digit == 3 {
        '3'
    } else if digit == 4 {
        '4'
    } else if digit == 5 {
        '5'
    } else if digit == 6 {
        '6'
    } else if digit == 7 {
        '7'
    } else if digit == 8 {
        '8'
    } else if digit == 9 {
        '9'
    } else if digit == 10 {
        'a'
    } else if digit == 11 {
        'b'
    } else if digit == 12 {
        'c'
    } else if digit == 13 {
        'd'
    } else if digit == 14 {
        'e'
    } else {
        'f'
    }
}

/// The character at place `i` of the hyphenated form: 32 lower-case hex
/// digits in groups of 8, 4, 4, 4 and 12.
pub open spec fn hyphenated_char(id: u128, i: int) -> char {
    if i == 8 || i == 13 || i == 18 || i == 23 {
        '-'
    } else if i < 8 {
        lower_hex(hex_digit(id, i))
    } else if i < 13 {
        lower_hex(hex_digit(id, i - 1))
    } else if i < 18 {
        lower_hex(hex_digit(id, i - 2))
    } else if i < 23 {
        lower_hex(hex_digit(id, i - 3))
    } else {
        lower_hex(hex_digit(id, i - 4))
    }
}

/// The text of an identifier, as in `a1a2a3a4-b1b2-c1c2-d1d2-d3d4d5d6d7d8`.
pub open spec fn hyphenated(id: u128) -> Seq<char> {
    Seq::new(36, |i: int| hyphenated_char(id, i))
}

/// `uuid::Uuid::new_v4`, taken as a number. Trusted: the identifier is
/// random but for its version and variant digits.
#[verifier::external_body]
pub(crate) fn fresh_id() -> (id: u128)
    ensures
        is_random_id(id),
{
    uuid::Uuid::new_v4().as_u128()
}

/// `to_string` of the `uuid::Uuid` with this number. Trusted: the text is
/// the hyphenated lower-case form.
#[verifier::external_body]
pub(crate) fn id_text(id: u128) -> (r: String)
    ensures
        r@ == hyphenated(id),
{
    uuid::Uuid::from_u128(id).to_string()
}

} // verus!
