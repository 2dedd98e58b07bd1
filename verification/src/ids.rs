//! Fresh identifiers.
use vstd::prelude::*;

verus! {

/// A fresh random (version 4) UUID, as its 128-bit value
/// (`uuid::Uuid::new_v4`). Nothing is known of the value: it is random.
#[verifier::external_body]
pub(crate) fn new_id() -> (r: u128) {
    uuid::Uuid::new_v4().as_u128()
}

/// The version 4 UUID that `uuid` builds from 16 random bytes, as its
/// 128-bit value.
pub uninterp spec fn uuid_v4_value(bytes: Seq<u8>) -> u128;

/// The version 4 UUID built from 16 random bytes
/// (`uuid::Builder::from_random_bytes`), as its 128-bit value.
#[verifier::external_body]
fn uuid_from_random_bytes(bytes: &[u8]) -> (r: u128)
    requires
        bytes@.len() == 16,
    ensures
        r == uuid_v4_value(bytes@),
{
    let b: [u8; 16] = bytes.try_into().unwrap();
    uuid::Builder::from_random_bytes(b).into_uuid().as_u128()
}

/// A fresh random (version 4) UUID, as its 128-bit value, or `None` when the
/// operating system has no random bytes to give.
pub(crate) fn try_new_id() -> (r: Option<u128>)
    ensures
        r matches Some(v) ==> exists|b: Seq<u8>| b.len() == 16 && v == uuid_v4_value(b),
{
    match crate::password::random_bytes(16) {
        Some(b) => Some(uuid_from_random_bytes(b.as_slice())),
        None => None,
    }
}

} // verus!
