//! Identifiers of users and study cards.
//!
//! An identifier is a ULID held as its 128-bit value: the upper 48 bits are a
//! millisecond timestamp, so identifiers sort by creation time.

use vstd::prelude::*;

verus! {

/// The digit of Crockford's base 32 that stands for `value`, which is to be
/// less than 32: the ten figures, then the capital letters without I, L, O
/// and U.
pub open spec fn crockford_digit(value: int) -> char {
    "0123456789ABCDEFGHJKMNPQRSTVWXYZ"@[value]
}

/// The canonical text of an identifier: its 128 bits written as 26 digits of
/// Crockford's base 32, five bits to a digit, the most significant first.
pub open spec fn ulid_text(id: u128) -> Seq<char> {
    Seq::new(26, |k: int| crockford_digit(((id >> ((5 * (25 - k)) as u128)) & 0x1f) as int))
}

/// Draws a new identifier with `ulid::Ulid::new`.
///
/// The value depends on the clock and on a random source, so nothing is
/// claimed of it: callers must cope with any `u128`.
#[verifier::external_body]
pub(crate) fn fresh_id() -> (id: u128) {
    u128::from(ulid::Ulid::new())
}

/// Renders an identifier with `ulid::Ulid::to_string`.
///
/// The contract restates the crate's encoder: 26 digits, each taken from the
/// alphabet of Crockford's base 32 by five bits of the value, the lowest five
/// bits last. It is believed, not proved.
#[verifier::external_body]
pub(crate) fn id_to_string(id: u128) -> (text: String)
    ensures
        text@ == ulid_text(id),
{
    ulid::Ulid::from(id).to_string()
}

} // verus!
