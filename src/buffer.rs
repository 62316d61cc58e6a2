use vstd::prelude::*;

use bytes::{Bytes, BytesMut};

verus! {

#[verifier::external_type_specification]
#[verifier::external_body]
pub struct ExBytes(Bytes);

#[verifier::external_type_specification]
#[verifier::external_body]
pub struct ExBytesMut(BytesMut);

/// The bytes that a frozen buffer holds.
pub uninterp spec fn bytes_content(b: Bytes) -> Seq<u8>;

/// The bytes that a growable buffer holds.
pub uninterp spec fn bytes_mut_content(b: BytesMut) -> Seq<u8>;

/// Relies on `BytesMut::with_capacity`: the new buffer holds no data.
#[verifier::external_body]
pub(crate) fn buffer_with_capacity(capacity: usize) -> (r: BytesMut)
    ensures
        bytes_mut_content(r) == Seq::<u8>::empty(),
{
    BytesMut::with_capacity(capacity)
}

/// Relies on `BytesMut::resize`: the buffer is cut to `new_len`, or
/// extended to it with copies of `value`.
#[verifier::external_body]
pub(crate) fn buffer_resize(b: &mut BytesMut, new_len: usize, value: u8)
    ensures
        bytes_mut_content(*final(b)) == if new_len <= bytes_mut_content(*old(b)).len() {
            bytes_mut_content(*old(b)).take(new_len as int)
        } else {
            bytes_mut_content(*old(b)) + Seq::new(
                (new_len - bytes_mut_content(*old(b)).len()) as nat,
                |i: int| value,
            )
        },
{
    b.resize(new_len, value)
}

/// Relies on `BytesMut::truncate`: the buffer keeps its first `len` bytes,
/// and is unchanged when it is no longer than `len`.
#[verifier::external_body]
pub(crate) fn buffer_truncate(b: &mut BytesMut, len: usize)
    ensures
        bytes_mut_content(*final(b)) == if len <= bytes_mut_content(*old(b)).len() {
            bytes_mut_content(*old(b)).take(len as int)
        } else {
            bytes_mut_content(*old(b))
        },
{
    b.truncate(len)
}

/// Relies on `BytesMut::freeze`: the frozen buffer holds the same bytes.
#[verifier::external_body]
pub(crate) fn buffer_freeze(b: BytesMut) -> (r: Bytes)
    ensures
        bytes_content(r) == bytes_mut_content(b),
{
    b.freeze()
}

} // verus!
