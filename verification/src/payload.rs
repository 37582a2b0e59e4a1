//! Opaque message payloads.

use vstd::prelude::*;

verus! {

/// `bytes::Bytes`: a cheaply cloneable, immutable run of bytes.
#[verifier::external_type_specification]
#[verifier::external_body]
pub struct ExBytes(bytes::Bytes);

/// The bytes that a payload holds, in order.
pub uninterp spec fn payload_bytes(b: bytes::Bytes) -> Seq<u8>;

/// `Bytes::len`: the number of bytes that the payload holds.
pub assume_specification[ bytes::Bytes::len ](b: &bytes::Bytes) -> (n: usize)
    ensures
        n == payload_bytes(*b).len(),
;

} // verus!
