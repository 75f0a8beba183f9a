//! UUID text: the canonical lowercase hyphenated form of a 128-bit identifier,
//! and parsing identifiers back from text.

use vstd::prelude::*;

verus! {

/// Lowercase hexadecimal digit of a nibble.
pub open spec fn hex_digit(n: nat) -> char {
    if n < 10 { (('0' as int) + n) as char } else { (('a' as int) + n - 10) as char }
}

/// The `k`-th nibble (0 = most significant) of a 128-bit value.
pub open spec fn nibble(id: u128, k: int) -> nat {
    ((id >> ((124 - 4 * k) as u128)) & 15u128) as nat
}

/// Position of the `i`-th character of the hyphenated form among the 32 hex
/// digits (hyphens sit at 8, 13, 18 and 23).
pub open spec fn digit_index(i: int) -> int {
    if i < 8 { i } else if i < 13 { i - 1 } else if i < 18 { i - 2 } else if i < 23 { i - 3 } else { i - 4 }
}

/// The canonical UUID text `xxxxxxxx-xxxx-xxxx-xxxx-xxxxxxxxxxxx` of a value
/// (big-endian, lowercase).
pub open spec fn hyphenated(id: u128) -> Seq<char> {
    Seq::new(36, |i: int| if i == 8 || i == 13 || i == 18 || i == 23 { '-' } else {
        hex_digit(nibble(id, digit_index(i)))
    })
}

/// Canonical text of a UUID (`Uuid::from_u128(id).to_string()`).
#[verifier::external_body]
pub(crate) fn uuid_string(id: u128) -> (s: String)
    ensures s@ == hyphenated(id),
{
    uuid::Uuid::from_u128(id).to_string()
}

/// What `Uuid::parse_str` gives for a text: the identifier it denotes, or
/// `None` when it is not a UUID in one of the accepted forms.
pub uninterp spec fn uuid_parse(s: Seq<char>) -> Option<u128>;

/// Parse a UUID from text (`Uuid::parse_str`), as its 128-bit value.
#[verifier::external_body]
pub(crate) fn parse_uuid(s: &str) -> (r: Option<u128>)
    ensures
        r == uuid_parse(s@),
        forall|id: u128| s@ == hyphenated(id) ==> r == Some(id),
{
    match uuid::Uuid::parse_str(s) {
        Ok(u) => Some(u.as_u128()),
        Err(_) => None,
    }
}

/// Whether a UUID value carries version 4 and the RFC 4122 variant: its
/// version nibble is 4 and its variant bits are `10`.
pub open spec fn is_v4(id: u128) -> bool {
    (id >> 76u128) & 0xfu128 == 4 && (id >> 62u128) & 0x3u128 == 2
}

/// A fresh random (version 4) UUID (`Uuid::new_v4`), as its 128-bit value.
/// The value is random; of every outcome the source fixes only the version
/// nibble (4) and the RFC 4122 variant bits (`10`).
#[verifier::external_body]
pub(crate) fn new_v4() -> (id: u128)
    ensures is_v4(id),
{
    uuid::Uuid::new_v4().as_u128()
}

} // verus!
