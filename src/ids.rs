//! Opaque 128-bit identifiers, their canonical text, parsing and generation.

use vstd::arithmetic::power::pow;
use vstd::prelude::*;

verus! {

/// An identifier of an organization or a file: the 128 bits of a UUID.
#[derive(Clone, Copy, PartialEq, Eq, Structural, Debug, Hash)]
pub struct Id {
    pub bits: u128,
}

/// The lowercase hexadecimal digit for a nibble `n` in `0..16`.
pub open spec fn hex_digit(n: int) -> char {
    seq!['0', '1', '2', '3', '4', '5', '6', '7', '8', '9', 'a', 'b', 'c', 'd', 'e', 'f'][n]
}

/// Nibble number `d` of `bits`, counting from the most significant (`d == 0`).
pub open spec fn nibble(bits: u128, d: int) -> int {
    (bits as int / pow(16, (31 - d) as nat)) % 16
}

/// Which of the 32 hex digits stands at position `i` of the hyphenated text.
pub open spec fn digit_at(i: int) -> int {
    if i < 8 {
        i
    } else if i < 13 {
        i - 1
    } else if i < 18 {
        i - 2
    } else if i < 23 {
        i - 3
    } else {
        i - 4
    }
}

/// The canonical text of an identifier: 32 lowercase hex digits, most
/// significant first, grouped 8-4-4-4-12 by hyphens.
pub open spec fn hyphenated_text(bits: u128) -> Seq<char> {
    Seq::new(
        36,
        |i: int|
            if i == 8 || i == 13 || i == 18 || i == 23 {
                '-'
            } else {
                hex_digit(nibble(bits, digit_at(i)))
            },
    )
}

/// What `uuid::Uuid::parse_str` makes of a text: its bits, or nothing.
pub uninterp spec fn parsed_uuid(s: Seq<char>) -> Option<u128>;

/// Relies on `uuid::Uuid::parse_str`: it accepts 32 plain hex digits, the
/// hyphenated form (36 characters), the braced form (38) and the URN form (45),
/// so that the canonical text of any identifier parses back to it.
#[verifier::external_body]
fn parse_uuid(s: &str) -> (r: Option<u128>)
    ensures
        r == parsed_uuid(s@),
        r is Some ==> (s@.len() == 32 || s@.len() == 36 || s@.len() == 38 || s@.len() == 45),
        forall|b: u128| #[trigger] hyphenated_text(b) == s@ ==> r == Some(b),
{
    match uuid::Uuid::parse_str(s) {
        Ok(u) => Some(u.as_u128()),
        Err(_) => None,
    }
}

/// Relies on `uuid::Uuid::from_u128` and its `Display`: the lowercase
/// hyphenated form, with the bits taken most significant first.
#[verifier::external_body]
fn uuid_text(bits: u128) -> (r: String)
    ensures
        r@ == hyphenated_text(bits),
{
    uuid::Uuid::from_u128(bits).to_string()
}

/// Relies on `uuid::Uuid::new_v4`: random bits, with the version nibble set to 4.
#[verifier::external_body]
fn random_uuid() -> (r: u128)
    ensures
        (r >> 76u128) & 0xfu128 == 4,
{
    uuid::Uuid::new_v4().as_u128()
}

impl Id {
    /// Parses an identifier; `None` where the text is not a UUID.
    pub fn parse(s: &str) -> (r: Option<Id>)
        ensures
            r == (match parsed_uuid(s@) {
                Some(b) => Some(Id { bits: b }),
                None => None,
            }),
    {
        match parse_uuid(s) {
            Some(b) => Some(Id { bits: b }),
            None => None,
        }
    }

    /// The canonical hyphenated text of this identifier.
    pub fn to_text(&self) -> (r: String)
        ensures
            r@ == hyphenated_text(self.bits),
    {
        uuid_text(self.bits)
    }

    /// A fresh random (version 4) identifier.
    pub fn generate() -> (r: Id)
        ensures
            (r.bits >> 76u128) & 0xfu128 == 4,
    {
        Id { bits: random_uuid() }
    }
}

} // verus!
