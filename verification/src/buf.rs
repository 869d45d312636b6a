//! Trusted interface to the byte buffers that cells are framed from and
//! into.
//!
//! The transport hands the channel layer its bytes in a `bytes::BytesMut`
//! buffer, which supports exactly what the zero-partial-consumption
//! invariant needs: peeking without consuming, and splitting off a
//! consumed prefix.  Verus sees the buffer through the
//! [`buffer_bytes`] abstraction and a handful of wrappers; everything
//! done with the peeked bytes is verified code.

use bytes::Buf;
use vstd::prelude::*;

verus! {

/// `bytes::BytesMut`, declared so it can stand in signatures.
#[verifier::external_type_specification]
#[verifier::external_body]
pub struct ExBytesMut(bytes::BytesMut);

/// The bytes a buffer currently holds, in order.
pub uninterp spec fn buffer_bytes(b: bytes::BytesMut) -> Seq<u8>;

/// Relies on `BytesMut::len`: the number of bytes the buffer holds.
#[verifier::external_body]
pub(crate) fn buf_len(b: &bytes::BytesMut) -> (r: usize)
    ensures
        r == buffer_bytes(*b).len(),
{
    b.len()
}

/// Relies on `BytesMut`'s slice view: the buffer dereferences to its
/// bytes in order, copied out here without consuming them.
#[verifier::external_body]
pub(crate) fn buf_peek_all(b: &bytes::BytesMut) -> (r: Vec<u8>)
    ensures
        r@ == buffer_bytes(*b),
{
    b.to_vec()
}

/// Relies on `bytes::Buf::advance`: drops the first `n` bytes of the
/// buffer and keeps the rest.  `advance` panics when `n` exceeds the
/// buffer's length, so that case is excluded here.
#[verifier::external_body]
pub(crate) fn buf_advance(b: &mut bytes::BytesMut, n: usize)
    requires
        n <= buffer_bytes(*old(b)).len(),
    ensures
        buffer_bytes(*final(b)) == buffer_bytes(*old(b)).skip(n as int),
{
    b.advance(n)
}

/// Relies on `BytesMut::extend_from_slice`: appends the given bytes
/// after the buffer's current contents.
#[verifier::external_body]
pub(crate) fn buf_put(b: &mut bytes::BytesMut, data: &[u8])
    ensures
        buffer_bytes(*final(b)) == buffer_bytes(*old(b)) + data@,
{
    b.extend_from_slice(data)
}

} // verus!
