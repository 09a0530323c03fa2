//! User, conversation and message identifiers.
//!
//! Identifiers are UUIDs, held as the 128-bit number whose big-endian bytes
//! are the UUID's bytes. Text forms go through the `uuid` crate.
use vstd::arithmetic::power2::pow2;
use vstd::prelude::*;

verus! {

/// The lowercase hexadecimal digits, indexed by value.
pub open spec fn hex_digits() -> Seq<char> {
    seq!['0', '1', '2', '3', '4', '5', '6', '7', '8', '9', 'a', 'b', 'c', 'd', 'e', 'f']
}

/// The `k`-th hexadecimal digit of `v`, counted from the most significant one.
pub open spec fn nibble(v: u128, k: int) -> int {
    ((v as nat / pow2((4 * (31 - k)) as nat)) % 16) as int
}

/// How many dashes precede position `i` of the hyphenated form.
pub open spec fn dashes_before(i: int) -> int {
    if i < 9 {
        0
    } else if i < 14 {
        1
    } else if i < 19 {
        2
    } else if i < 24 {
        3
    } else {
        4
    }
}

/// The hyphenated lowercase text of a UUID: 32 hex digits in groups of
/// 8, 4, 4, 4 and 12, separated by dashes.
pub open spec fn uuid_hyphenated(v: u128) -> Seq<char> {
    Seq::new(
        36,
        |i: int|
            if i == 8 || i == 13 || i == 18 || i == 23 {
                '-'
            } else {
                hex_digits()[nibble(v, i - dashes_before(i))]
            },
    )
}

/// What `uuid::Uuid::parse_str` makes of a text, as a number.
pub uninterp spec fn uuid_parse(s: Seq<char>) -> Option<u128>;

/// Relies on `uuid::Uuid::parse_str`, which accepts the simple, hyphenated,
/// braced and URN forms, and on `Uuid::as_u128`.
#[verifier::external_body]
pub(crate) fn parse_uuid(s: &str) -> (r: Option<u128>)
    ensures
        r == uuid_parse(s@),
        forall|v: u128| s@ == uuid_hyphenated(v) ==> r == Some(v),
{
    match uuid::Uuid::parse_str(s) {
        Ok(u) => Some(u.as_u128()),
        Err(_) => None,
    }
}

/// Relies on `uuid::Uuid::from_u128` and the `Display` of `Hyphenated`,
/// which writes lowercase hex digits in the 8-4-4-4-12 layout.
#[verifier::external_body]
pub(crate) fn uuid_text(v: u128) -> (r: String)
    ensures
        r@ == uuid_hyphenated(v),
{
    uuid::Uuid::from_u128(v).hyphenated().to_string()
}

/// Relies on `uuid::Uuid::new_v4`: a random identifier, of which nothing is
/// promised here.
#[verifier::external_body]
pub(crate) fn fresh_uuid() -> (r: u128) {
    uuid::Uuid::new_v4().as_u128()
}

/// Reads a user identifier from its text form.
pub fn parse_user_id(text: &str) -> (r: Option<u128>)
    ensures
        r == uuid_parse(text@),
{
    parse_uuid(text)
}

/// The hyphenated text of an identifier.
pub fn format_id(v: u128) -> (r: String)
    ensures
        r@ == uuid_hyphenated(v),
{
    uuid_text(v)
}

} // verus!
