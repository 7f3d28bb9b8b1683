//! The growable byte buffer behind the machine-code emitter: a thin trusted
//! layer over `bytes::BytesMut`, whose contents are named by `buf_bytes`.
use vstd::prelude::*;

verus! {

#[verifier::external_type_specification]
#[verifier::external_body]
pub struct ExBytesMut(bytes::BytesMut);

/// The bytes a `bytes::BytesMut` buffer holds, in order.
pub uninterp spec fn buf_bytes(b: bytes::BytesMut) -> Seq<u8>;

/// Relies on bytes::BytesMut::new: a fresh buffer holds no bytes.
#[verifier::external_body]
pub fn buf_new() -> (b: bytes::BytesMut)
    ensures
        buf_bytes(b) == Seq::<u8>::empty(),
{
    bytes::BytesMut::new()
}

/// Relies on bytes::BufMut::put_u8 on BytesMut: appends one byte, growing
/// the buffer as needed.
#[verifier::external_body]
pub fn buf_put(b: &mut bytes::BytesMut, v: u8)
    ensures
        buf_bytes(*final(b)) == buf_bytes(*old(b)).push(v),
{
    bytes::BufMut::put_u8(b, v)
}

/// Relies on bytes::BytesMut::len: the number of bytes held.
#[verifier::external_body]
pub fn buf_len(b: &bytes::BytesMut) -> (n: usize)
    ensures
        n == buf_bytes(*b).len(),
{
    b.len()
}

/// Relies on the `From<BytesMut> for Vec<u8>` impl of the bytes crate: the
/// vector holds exactly the buffer's bytes.
#[verifier::external_body]
pub fn buf_to_vec(b: bytes::BytesMut) -> (v: Vec<u8>)
    ensures
        v@ == buf_bytes(b),
{
    Vec::from(b)
}

} // verus!
