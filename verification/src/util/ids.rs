//! File identifiers: UUIDs, read as 128-bit numbers.

use vstd::prelude::*;

verus! {

/// The 128-bit number of the UUID that a text parses to, if it parses to
/// one.
pub uninterp spec fn uuid_number(text: Seq<char>) -> Option<u128>;

/// Calls `uuid::Uuid::from_str`, and `as_u128` on the UUID it gives. The
/// contract gives the outcome the name `uuid_number`: the number, or none
/// where the parse fails.
#[verifier::external_body]
fn uuid_from_str(text: &str) -> (r: Option<u128>)
    ensures
        r == uuid_number(text@),
{
    match text.parse::<uuid::Uuid>() {
        Ok(id) => Some(id.as_u128()),
        Err(_) => None,
    }
}

/// The number that places a file in the space of identifiers: the number of
/// its UUID, and zero where the text is no UUID.
pub open spec fn uuid_position(text: Seq<char>) -> u128 {
    match uuid_number(text) {
        Some(n) => n,
        None => 0,
    }
}

/// The number that places a file in the space of identifiers.
pub fn file_position(file_uuid: &str) -> (n: u128)
    ensures
        n == uuid_position(file_uuid@),
{
    match uuid_from_str(file_uuid) {
        Some(n) => n,
        None => 0,
    }
}

/// Whether a text is a UUID.
pub fn is_uuid(text: &str) -> (ok: bool)
    ensures
        ok == uuid_number(text@) is Some,
{
    uuid_from_str(text).is_some()
}

} // verus!
