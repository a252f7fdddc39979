//! What the library takes on trust from outside crates.
use vstd::prelude::*;

verus! {

/// Cover art and other uploaded payloads are `bytes::Bytes`, carried through
/// unopened.
#[verifier::external_type_specification]
#[verifier::external_body]
pub struct ExBytes(bytes::Bytes);

/// The bytes that a `bytes::Bytes` holds.
pub uninterp spec fn bytes_of(b: bytes::Bytes) -> Seq<u8>;

/// Relies on `bytes::Bytes::is_empty`, which tests the stored length.
pub assume_specification[ bytes::Bytes::is_empty ](b: &bytes::Bytes) -> (r: bool)
    ensures
        r == (bytes_of(*b).len() == 0),
;

/// Relies on `Clone for bytes::Bytes`: the copy shares the same buffer,
/// offset and length.
pub assume_specification[ <bytes::Bytes as Clone>::clone ](b: &bytes::Bytes) -> (r: bytes::Bytes)
    ensures
        r == *b,
;

/// Relies on `uuid::Uuid::new_v4` and its `Display`: a random version-4
/// identifier written in the 36-character hyphenated form.
#[verifier::external_body]
pub(crate) fn new_session_token() -> (r: String)
    ensures
        r@.len() == 36,
{
    uuid::Uuid::new_v4().to_string()
}

} // verus!
