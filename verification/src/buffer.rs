//! The byte buffer that the codecs read from and write into.
use bytes::BytesMut;
use vstd::prelude::*;

verus! {

/// `bytes::BytesMut`, a growable byte buffer; Verus sees only the bytes it holds.
#[verifier::external_type_specification]
#[verifier::external_body]
pub struct ExBytesMut(BytesMut);

/// The bytes that a `BytesMut` holds, in order.
pub uninterp spec fn contents(buf: BytesMut) -> Seq<u8>;

/// `BytesMut::len`: the number of bytes in the buffer.
#[verifier::external_body]
pub(crate) fn buf_len(buf: &BytesMut) -> (n: usize)
    ensures
        n as int == contents(*buf).len(),
{
    buf.len()
}

/// `<BytesMut as Deref>::deref`: the buffer's bytes as a slice.
#[verifier::external_body]
pub(crate) fn buf_bytes(buf: &BytesMut) -> (s: &[u8])
    ensures
        s@ == contents(*buf),
{
    &buf[..]
}

/// `BytesMut::split_to`: afterwards the buffer holds the bytes `[at, len)`
/// and the returned buffer the bytes `[0, at)`. It panics if `at > len`.
#[verifier::external_body]
pub(crate) fn buf_split_to(buf: &mut BytesMut, at: usize) -> (head: BytesMut)
    requires
        at <= contents(*old(buf)).len(),
    ensures
        contents(head) == contents(*old(buf)).subrange(0, at as int),
        contents(*final(buf)) == contents(*old(buf)).subrange(at as int, contents(*old(buf)).len() as int),
{
    buf.split_to(at)
}

/// `BytesMut::extend_from_slice`: appends the slice's bytes to the buffer.
/// It reserves room first and panics only when the new capacity would
/// overflow, which the bound below rules out.
#[verifier::external_body]
pub(crate) fn buf_extend(buf: &mut BytesMut, more: &[u8])
    requires
        contents(*old(buf)).len() + more@.len() <= isize::MAX,
    ensures
        contents(*final(buf)) == contents(*old(buf)) + more@,
{
    buf.extend_from_slice(more)
}

} // verus!
