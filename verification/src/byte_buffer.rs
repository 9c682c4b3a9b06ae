use vstd::prelude::*;

verus! {

/// `bytes::BytesMut` is the growable byte buffer the framer accumulates
/// socket reads in; declared here so it can stand in fields and signatures.
#[verifier::external_type_specification]
#[verifier::external_body]
pub struct ExBytesMut(bytes::BytesMut);

/// The bytes a `bytes::BytesMut` holds, oldest first.
pub uninterp spec fn byte_buffer_contents(b: bytes::BytesMut) -> Seq<u8>;

/// Relies on `BytesMut::with_capacity`: the new buffer is empty, whatever
/// capacity it reserves.
#[verifier::external_body]
pub(crate) fn byte_buffer_with_capacity(capacity: usize) -> (r: bytes::BytesMut)
    ensures
        byte_buffer_contents(r) == Seq::<u8>::empty(),
{
    bytes::BytesMut::with_capacity(capacity)
}

/// Relies on `BytesMut::len`: the number of bytes the buffer holds.
#[verifier::external_body]
pub(crate) fn byte_buffer_len(b: &bytes::BytesMut) -> (r: usize)
    ensures
        r == byte_buffer_contents(*b).len(),
{
    b.len()
}

/// Relies on `BytesMut`'s `Deref` to `[u8]`: indexing reads the byte at
/// that position of the contents.
#[verifier::external_body]
pub(crate) fn byte_buffer_index(b: &bytes::BytesMut, i: usize) -> (r: u8)
    requires
        i < byte_buffer_contents(*b).len(),
    ensures
        r == byte_buffer_contents(*b)[i as int],
{
    b[i]
}

/// Relies on `BytesMut::extend_from_slice`: appends the slice's bytes after
/// the bytes already held.
#[verifier::external_body]
pub(crate) fn byte_buffer_extend(b: &mut bytes::BytesMut, data: &[u8])
    ensures
        byte_buffer_contents(*final(b)) == byte_buffer_contents(*old(b)) + data@,
{
    b.extend_from_slice(data)
}

/// Relies on `BytesMut::split_to`: returns the first `at` bytes and leaves
/// the rest; panics if `at` exceeds the length, so that is required away.
#[verifier::external_body]
pub(crate) fn byte_buffer_split_to(b: &mut bytes::BytesMut, at: usize) -> (r: bytes::BytesMut)
    requires
        at <= byte_buffer_contents(*old(b)).len(),
    ensures
        byte_buffer_contents(r) == byte_buffer_contents(*old(b)).subrange(0, at as int),
        byte_buffer_contents(*final(b)) == byte_buffer_contents(*old(b)).subrange(
            at as int,
            byte_buffer_contents(*old(b)).len() as int,
        ),
{
    b.split_to(at)
}

/// Relies on `BytesMut`'s `Deref` to `[u8]` and `slice::to_vec`: copies the
/// buffer's bytes out in order.
#[verifier::external_body]
pub(crate) fn byte_buffer_to_vec(b: &bytes::BytesMut) -> (r: Vec<u8>)
    ensures
        r@ == byte_buffer_contents(*b),
{
    b.to_vec()
}

} // verus!
