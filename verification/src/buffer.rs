//! The growable byte buffer that holds a preview.
use bytes::BytesMut;
use vstd::prelude::*;

verus! {

/// `BytesMut` of the crate bytes: a buffer of bytes that grows at its end.
#[verifier::external_type_specification]
#[verifier::external_body]
pub struct ExBytesMut(bytes::BytesMut);

/// The bytes that a buffer holds, first to last.
pub uninterp spec fn buffer_bytes(buffer: BytesMut) -> Seq<u8>;

/// The most bytes that a buffer is ever asked to hold: half of what `usize`
/// counts.
pub const BUFFER_LIMIT: usize = usize::MAX / 2;

/// `BytesMut::new`: the new buffer holds nothing.
pub assume_specification[ BytesMut::new ]() -> (buffer: BytesMut)
    ensures
        buffer_bytes(buffer) == Seq::<u8>::empty(),
;

/// `BytesMut::len`: the number of bytes that the buffer holds.
pub assume_specification[ BytesMut::len ](buffer: &BytesMut) -> (len: usize)
    ensures
        len == buffer_bytes(*buffer).len(),
;

/// `BytesMut::reserve`: it makes room for `additional` bytes more and leaves
/// the contents as they are. It panics where the new capacity overflows
/// `usize`, which the bound leaves out.
pub assume_specification[ BytesMut::reserve ](buffer: &mut BytesMut, additional: usize)
    requires
        buffer_bytes(*old(buffer)).len() + additional <= BUFFER_LIMIT,
    ensures
        buffer_bytes(*final(buffer)) == buffer_bytes(*old(buffer)),
;

/// `BytesMut::extend_from_slice`: the given bytes are appended. It reserves
/// room for them first, hence the same bound.
pub assume_specification[ BytesMut::extend_from_slice ](buffer: &mut BytesMut, extend: &[u8])
    requires
        buffer_bytes(*old(buffer)).len() + extend@.len() <= BUFFER_LIMIT,
    ensures
        buffer_bytes(*final(buffer)) == buffer_bytes(*old(buffer)) + extend@,
;

/// `BytesMut::from`, for a slice of bytes: the new buffer holds a copy of it.
#[verifier::external_body]
pub(crate) fn buffer_from_slice(bytes: &[u8]) -> (buffer: BytesMut)
    ensures
        buffer_bytes(buffer) == bytes@,
{
    BytesMut::from(bytes)
}

/// `BytesMut::deref`: the slice is what the buffer holds.
#[verifier::external_body]
pub(crate) fn buffer_as_slice(buffer: &BytesMut) -> (bytes: &[u8])
    ensures
        bytes@ == buffer_bytes(*buffer),
{
    buffer
}

} // verus!
