//! Post identifiers: drawing a new one, and reading one from text.
//!
//! An identifier is the 128-bit value of a UUID. Both functions here hand
//! the work to the `uuid` crate; their contracts are not proved.

use vstd::prelude::*;

verus! {

/// What `uuid::Uuid::parse_str` reads from `text`, as the UUID's 128-bit
/// value: `None` where it rejects the text.
pub uninterp spec fn uuid_value(text: Seq<char>) -> Option<u128>;

/// Calls `uuid::Uuid::parse_str` and hands back the 128-bit value of the
/// UUID it read, or `None` where it reports an error. The result depends on
/// the characters of `text` alone.
#[verifier::external_body]
pub(crate) fn parse_uuid(text: &str) -> (parsed: Option<u128>)
    ensures
        parsed == uuid_value(text@),
{
    match uuid::Uuid::parse_str(text) {
        Ok(id) => Some(id.as_u128()),
        Err(_) => None,
    }
}

/// Calls `uuid::Uuid::new_v4` and hands back the 128-bit value of the UUID.
/// Nothing is claimed of the random bits; the version field holds 4 and the
/// variant field the two bits `10`, which `new_v4` sets in every UUID it
/// makes.
#[verifier::external_body]
pub(crate) fn random_uuid() -> (id: u128)
    ensures
        (id >> 76) & 0xf == 4,
        (id >> 62) & 0x3 == 2,
{
    uuid::Uuid::new_v4().as_u128()
}

} // verus!
