//! The byte buffers of the `bytes` crate, as the library sees them: opaque
//! values whose contents have a name, and the few operations that the
//! library performs on them, each with what it does to those contents.

use bytes::Bytes;
use bytes::BytesMut;
use vstd::prelude::*;

verus! {

/// `bytes::BytesMut`, the growable byte buffer that the stage cuts.
#[verifier::external_type_specification]
#[verifier::external_body]
pub struct ExBytesMut(BytesMut);

/// The bytes that a `BytesMut` holds, first byte first.
pub uninterp spec fn buffered(buf: BytesMut) -> Seq<u8>;

/// `BytesMut::len`: the number of bytes held.
#[verifier::external_body]
pub(crate) fn buffer_len(buf: &BytesMut) -> (n: usize)
    ensures
        n == buffered(*buf).len(),
{
    buf.len()
}

/// `BytesMut::split_to`: takes the first `at` bytes out of `buf` and leaves
/// the rest. It panics when `at` is past the end, which `requires` rules out.
#[verifier::external_body]
pub(crate) fn split_to(buf: &mut BytesMut, at: usize) -> (head: BytesMut)
    requires
        at <= buffered(*old(buf)).len(),
    ensures
        buffered(head) == buffered(*old(buf)).subrange(0, at as int),
        buffered(*final(buf)) == buffered(*old(buf)).subrange(
            at as int,
            buffered(*old(buf)).len() as int,
        ),
{
    buf.split_to(at)
}

/// `BytesMut::split`: takes every byte out of `buf` and leaves it empty.
#[verifier::external_body]
pub(crate) fn split(buf: &mut BytesMut) -> (all: BytesMut)
    ensures
        buffered(all) == buffered(*old(buf)),
        buffered(*final(buf)) == Seq::<u8>::empty(),
{
    buf.split()
}

/// `bytes::Bytes`, the immutable byte buffer that is handed to listeners.
#[verifier::external_type_specification]
#[verifier::external_body]
pub struct ExBytes(Bytes);

/// The bytes that a `Bytes` holds, first byte first.
pub uninterp spec fn frozen(bytes: Bytes) -> Seq<u8>;

/// `Bytes::new`: a buffer that holds nothing.
#[verifier::external_body]
pub(crate) fn no_bytes() -> (bytes: Bytes)
    ensures
        frozen(bytes) == Seq::<u8>::empty(),
{
    Bytes::new()
}

/// `BytesMut::freeze`: the same bytes, from now on immutable.
#[verifier::external_body]
pub(crate) fn freeze(buf: BytesMut) -> (bytes: Bytes)
    ensures
        frozen(bytes) == buffered(buf),
{
    buf.freeze()
}

/// `Bytes::clone`: a second handle on the same bytes.
#[verifier::external_body]
pub(crate) fn share_bytes(bytes: &Bytes) -> (copy: Bytes)
    ensures
        frozen(copy) == frozen(*bytes),
{
    bytes.clone()
}

} // verus!
