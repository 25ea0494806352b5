//! Book identifiers: 128-bit values generated at creation and parsed from
//! path segments.

use vstd::prelude::*;

verus! {

/// The identifier that `uuid::Uuid::try_parse` reads out of a string of
/// hexadecimal digits with optional hyphens, or `None` where the string is
/// not a UUID.
pub uninterp spec fn uuid_of_str(s: Seq<char>) -> Option<u128>;

/// Relies on `uuid::Uuid::try_parse` and `uuid::Uuid::as_u128`: whether a
/// string parses as a UUID, and to which 128-bit value, depends on its
/// characters alone.
#[verifier::external_body]
pub(crate) fn parse_book_id(s: &str) -> (r: Option<u128>)
    ensures
        r == uuid_of_str(s@),
{
    match uuid::Uuid::try_parse(s) {
        Ok(u) => Some(u.as_u128()),
        Err(_) => None,
    }
}

/// A version-4 identifier: the version nibble reads 4 and the variant bits
/// read binary 10, as every randomly generated UUID carries them.
pub open spec fn is_v4_id(id: u128) -> bool {
    &&& (id >> 76) & 0xf == 4
    &&& (id >> 62) & 0x3 == 2
}

/// Relies on `uuid::Uuid::new_v4` and `uuid::Uuid::as_u128`: a freshly drawn
/// random identifier. Nothing is promised of its value beyond the version
/// and variant bits that every version-4 UUID carries. Should the operating
/// system's randomness source fail, the underlying generator aborts the
/// process instead of returning.
#[verifier::external_body]
pub(crate) fn fresh_book_id() -> (r: u128)
    ensures
        is_v4_id(r),
{
    uuid::Uuid::new_v4().as_u128()
}

} // verus!
