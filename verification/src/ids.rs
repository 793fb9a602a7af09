//! User and message identifiers: 128-bit UUIDs, held as `u128` in their big-endian reading.
use vstd::prelude::*;
use vstd::arithmetic::power2::pow2;

verus! {

/// The version and variant bits of a random (version 4, RFC 4122) UUID.
pub open spec fn spec_is_random_id(id: u128) -> bool {
    id & 0xf000_c000_0000_0000_0000u128 == 0x4000_8000_0000_0000_0000u128
}

/// The lowercase hexadecimal digit for `n` (0 to 15).
pub open spec fn spec_hex_digit(n: int) -> char {
    if n < 10 {
        ('0' as int + n) as char
    } else {
        ('a' as int + n - 10) as char
    }
}

/// The `k`-th of the 32 hexadecimal digits of `id`, counted from the most significant.
pub open spec fn spec_nibble(id: u128, k: int) -> int {
    (id as int / pow2((4 * (31 - k)) as nat) as int) % 16
}

/// Which hexadecimal digit stands at position `i` of the hyphenated text.
pub open spec fn spec_digit_position(i: int) -> int {
    if i < 8 {
        i
    } else if i < 13 {
        i - 1
    } else if i < 18 {
        i - 2
    } else if i < 23 {
        i - 3
    } else {
        i - 4
    }
}

/// The hyphenated lowercase text of an identifier: 8-4-4-4-12 hexadecimal digits.
pub open spec fn spec_id_text(id: u128) -> Seq<char> {
    Seq::new(
        36,
        |i: int|
            if i == 8 || i == 13 || i == 18 || i == 23 {
                '-'
            } else {
                spec_hex_digit(spec_nibble(id, spec_digit_position(i)))
            },
    )
}

/// The identifier that `uuid::Uuid::try_parse` reads from a text, if it reads one
/// (plain, hyphenated, braced or URN form).
pub uninterp spec fn uuid_text_value(text: Seq<char>) -> Option<u128>;

/// A fresh random identifier.
///
/// Calls `uuid::Uuid::new_v4`. Claims only what holds of every outcome: the version-4 and
/// RFC 4122 variant bits are set (the crate masks them in); the other bits are random.
#[verifier::external_body]
pub(crate) fn new_random_id() -> (id: u128)
    ensures
        spec_is_random_id(id),
{
    uuid::Uuid::new_v4().as_u128()
}

/// Reads an identifier from a text, as `uuid::Uuid::try_parse` does.
///
/// Calls `Uuid::try_parse`. The result is named `uuid_text_value`; of it the contract states
/// only that a text that reads as an identifier has one of the four lengths that the parser
/// accepts (32, 36, 38 or 45 characters, all of them ASCII there).
#[verifier::external_body]
pub(crate) fn parse_id(text: &str) -> (id: Option<u128>)
    ensures
        id == uuid_text_value(text@),
        id is Some ==> (text@.len() == 32 || text@.len() == 36 || text@.len() == 38
            || text@.len() == 45),
{
    match uuid::Uuid::try_parse(text) {
        Ok(u) => Some(u.as_u128()),
        Err(_) => None,
    }
}

/// The hyphenated lowercase text of an identifier, as `uuid::Uuid` displays it.
///
/// Calls `Uuid::from_u128` and `to_string`. Claims the exact text (8-4-4-4-12 lowercase
/// hexadecimal digits, most significant first) and that `Uuid::try_parse` reads that text
/// back as the same identifier.
#[verifier::external_body]
pub(crate) fn id_text(id: u128) -> (text: String)
    ensures
        text@ == spec_id_text(id),
        uuid_text_value(text@) == Some(id),
{
    uuid::Uuid::from_u128(id).to_string()
}

} // verus!
