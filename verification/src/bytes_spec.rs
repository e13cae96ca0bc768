//! Trusted declarations for `bytes::Bytes`, the buffer type that carries
//! encoded audio from the network to the decoder.

use vstd::prelude::*;

verus! {

/// Declares `bytes::Bytes` to Verus as an opaque type.
#[verifier::external_type_specification]
#[verifier::external_body]
pub struct ExBytes(bytes::Bytes);

/// The bytes that a `bytes::Bytes` buffer holds, in order.
pub uninterp spec fn bytes_view(b: bytes::Bytes) -> Seq<u8>;

/// Calls `bytes::Bytes::new`, which the crate documents as returning an
/// empty buffer.
#[verifier::external_body]
pub fn bytes_new() -> (b: bytes::Bytes)
    ensures
        bytes_view(b) == Seq::<u8>::empty(),
{
    bytes::Bytes::new()
}

/// Calls `From<Vec<u8>> for bytes::Bytes`; the buffer holds exactly the
/// bytes of the vector.
#[verifier::external_body]
pub fn bytes_from_vec(v: Vec<u8>) -> (b: bytes::Bytes)
    ensures
        bytes_view(b) == v@,
{
    bytes::Bytes::from(v)
}

/// Calls `AsRef<[u8]> for bytes::Bytes`; the slice shows the buffer's bytes.
#[verifier::external_body]
pub fn bytes_as_slice(b: &bytes::Bytes) -> (s: &[u8])
    ensures
        s@ == bytes_view(*b),
{
    b.as_ref()
}

} // verus!
