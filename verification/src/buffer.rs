use vstd::prelude::*;
use bytes::BufMut;

verus! {

#[verifier::external_type_specification]
#[verifier::external_body]
pub struct ExBytesMut(bytes::BytesMut);

/// The bytes a buffer holds, oldest first.
pub uninterp spec fn buf_bytes(b: bytes::BytesMut) -> Seq<u8>;

/// Relies on bytes::BytesMut::new: a fresh buffer holds no bytes.
#[verifier::external_body]
pub fn buf_new() -> (r: bytes::BytesMut)
    ensures
        buf_bytes(r) == Seq::<u8>::empty(),
{
    bytes::BytesMut::new()
}

/// Relies on bytes::BufMut::put_u8: appends one byte to the buffer.
#[verifier::external_body]
pub fn buf_put_u8(b: &mut bytes::BytesMut, x: u8)
    ensures
        buf_bytes(*final(b)) == buf_bytes(*old(b)).push(x),
{
    b.put_u8(x);
}

/// Relies on bytes::BytesMut::extend_from_slice: appends the slice's bytes.
#[verifier::external_body]
pub fn buf_extend(b: &mut bytes::BytesMut, s: &[u8])
    ensures
        buf_bytes(*final(b)) == buf_bytes(*old(b)) + s@,
{
    b.extend_from_slice(s);
}

/// Relies on bytes::BytesMut::len: the count of bytes held.
#[verifier::external_body]
pub fn buf_len(b: &bytes::BytesMut) -> (r: usize)
    ensures
        r == buf_bytes(*b).len(),
{
    b.len()
}

/// Relies on the Deref impl of bytes::BytesMut: a view of the bytes held.
#[verifier::external_body]
pub fn buf_as_slice(b: &bytes::BytesMut) -> (r: &[u8])
    ensures
        r@ == buf_bytes(*b),
{
    &b[..]
}

} // verus!
