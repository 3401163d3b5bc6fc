//! Trusted interface to the `bytes` crate's buffer types.
//!
//! The wire-side codec accumulates inbound bytes in a `bytes::BytesMut` and
//! hands decoded chunks out as `bytes::Bytes`. Both types are opaque to the
//! verifier; the spec functions below name their contents as a sequence of
//! bytes, and each wrapper states what the called method does to that
//! sequence, as the crate's documentation gives it.

use vstd::prelude::*;

verus! {

#[verifier::external_type_specification]
#[verifier::external_body]
pub struct ExBytesMut(bytes::BytesMut);

#[verifier::external_type_specification]
#[verifier::external_body]
pub struct ExBytes(bytes::Bytes);

/// The bytes a `BytesMut` currently holds, in order.
pub uninterp spec fn buf_data(b: bytes::BytesMut) -> Seq<u8>;

/// The bytes a `Bytes` holds, in order.
pub uninterp spec fn chunk_data(b: bytes::Bytes) -> Seq<u8>;

/// Relies on `bytes::BytesMut::new`: creates an empty buffer.
#[verifier::external_body]
pub fn buf_new() -> (r: bytes::BytesMut)
    ensures
        buf_data(r) == Seq::<u8>::empty(),
{
    bytes::BytesMut::new()
}

/// Relies on `bytes::BytesMut::is_empty`: true iff the buffer holds no bytes.
#[verifier::external_body]
pub fn buf_is_empty(b: &bytes::BytesMut) -> (r: bool)
    ensures
        r <==> buf_data(*b).len() == 0,
{
    b.is_empty()
}

/// Relies on `bytes::BytesMut::split`: removes all bytes from the buffer and
/// returns them in a new handle, leaving the buffer empty.
#[verifier::external_body]
pub fn buf_split(b: &mut bytes::BytesMut) -> (r: bytes::BytesMut)
    ensures
        buf_data(r) == buf_data(*old(b)),
        buf_data(*final(b)) == Seq::<u8>::empty(),
{
    b.split()
}

/// Relies on `bytes::BytesMut::freeze`: converts the buffer into an immutable
/// handle over the same bytes.
#[verifier::external_body]
pub fn buf_freeze(b: bytes::BytesMut) -> (r: bytes::Bytes)
    ensures
        chunk_data(r) == buf_data(b),
{
    b.freeze()
}

/// Relies on `bytes::BytesMut::extend_from_slice`: appends the given bytes to
/// the end of the buffer.
#[verifier::external_body]
pub fn buf_extend(b: &mut bytes::BytesMut, s: &[u8])
    ensures
        buf_data(*final(b)) == buf_data(*old(b)) + s@,
{
    b.extend_from_slice(s)
}

/// Relies on `bytes::Bytes::as_ref`: exposes the held bytes as a slice.
#[verifier::external_body]
pub fn chunk_as_slice(b: &bytes::Bytes) -> (r: &[u8])
    ensures
        r@ == chunk_data(*b),
{
    b.as_ref()
}

/// Copies the bytes of a chunk out into a plain vector.
pub fn chunk_to_vec(b: &bytes::Bytes) -> (r: Vec<u8>)
    ensures
        r@ == chunk_data(*b),
{
    vstd::slice::slice_to_vec(chunk_as_slice(b))
}

} // verus!
