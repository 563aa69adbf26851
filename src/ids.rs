//! Fresh opaque identifiers.

use vstd::prelude::*;

verus! {

/// Length of the hyphenated text form of a UUID.
pub const UUID_TEXT_LEN: usize = 36;

/// Relies on `uuid::Uuid::new_v4` and the hyphenated text form that its
/// `Display` writes: a random identifier of 36 characters.
#[verifier::external_body]
pub(crate) fn new_uuid_text() -> (r: String)
    ensures
        r@.len() == UUID_TEXT_LEN,
{
    uuid::Uuid::new_v4().to_string()
}

} // verus!
