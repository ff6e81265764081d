use bytes::{Bytes, BytesMut};
use vstd::prelude::*;

verus! {

/// `bytes::Bytes`, a cheaply cloneable, immutable byte buffer.
#[verifier::external_type_specification]
#[verifier::external_body]
pub struct ExBytes(Bytes);

/// The sequence of bytes that a `Bytes` buffer holds.
pub uninterp spec fn bytes_view(b: Bytes) -> Seq<u8>;

/// Calls `Bytes::new`, which returns an empty buffer.
#[verifier::external_body]
pub fn bytes_new() -> (r: Bytes)
    ensures
        bytes_view(r) == Seq::<u8>::empty(),
{
    Bytes::new()
}

/// Calls `Bytes::from(Vec<u8>)`, which takes ownership of the vector's bytes.
#[verifier::external_body]
pub fn bytes_from_vec(v: Vec<u8>) -> (r: Bytes)
    ensures
        bytes_view(r) == v@,
{
    Bytes::from(v)
}

/// Calls `Bytes::copy_from_slice`, which copies the slice into a new buffer.
#[verifier::external_body]
pub fn bytes_copy_from_slice(s: &[u8]) -> (r: Bytes)
    ensures
        bytes_view(r) == s@,
{
    Bytes::copy_from_slice(s)
}

/// Calls `Bytes::len`, the number of bytes in the buffer.
#[verifier::external_body]
pub fn bytes_len(b: &Bytes) -> (r: usize)
    ensures
        r == bytes_view(*b).len(),
{
    b.len()
}

/// Calls `Bytes::clone`; the clone holds the same bytes.
#[verifier::external_body]
pub fn bytes_clone(b: &Bytes) -> (r: Bytes)
    ensures
        bytes_view(r) == bytes_view(*b),
{
    b.clone()
}

/// Calls `Bytes::split_to(at)`: the first `at` bytes are returned and the
/// buffer keeps the rest. It panics when `at` exceeds the length, which
/// `requires` rules out.
#[verifier::external_body]
pub fn bytes_split_to(b: &mut Bytes, at: usize) -> (r: Bytes)
    requires
        at <= bytes_view(*old(b)).len(),
    ensures
        bytes_view(r) == bytes_view(*old(b)).take(at as int),
        bytes_view(*final(b)) == bytes_view(*old(b)).skip(at as int),
{
    b.split_to(at)
}

/// Calls `Bytes::split_off(at)`: the buffer keeps the first `at` bytes and
/// the rest is returned. It panics when `at` exceeds the length, which
/// `requires` rules out.
#[verifier::external_body]
pub fn bytes_split_off(b: &mut Bytes, at: usize) -> (r: Bytes)
    requires
        at <= bytes_view(*old(b)).len(),
    ensures
        bytes_view(*final(b)) == bytes_view(*old(b)).take(at as int),
        bytes_view(r) == bytes_view(*old(b)).skip(at as int),
{
    b.split_off(at)
}

/// Calls `<Bytes as Deref>::deref`, a view of the buffer's bytes as a slice.
#[verifier::external_body]
pub fn bytes_as_slice(b: &Bytes) -> (r: &[u8])
    ensures
        r@ == bytes_view(*b),
{
    b.as_ref()
}

/// Calls `Vec::<u8>::from(Bytes)`, which moves or copies the bytes into a
/// vector.
#[verifier::external_body]
pub fn bytes_into_vec(b: Bytes) -> (r: Vec<u8>)
    ensures
        r@ == bytes_view(b),
{
    Vec::from(b)
}

/// `bytes::BytesMut`, a unique, growable byte buffer.
#[verifier::external_type_specification]
#[verifier::external_body]
pub struct ExBytesMut(BytesMut);

/// The sequence of bytes that a `BytesMut` buffer holds.
pub uninterp spec fn bytes_mut_view(b: BytesMut) -> Seq<u8>;

/// Calls `BytesMut::from(Bytes)`, which keeps the bytes (copying them when
/// the buffer is shared).
#[verifier::external_body]
pub fn bytes_mut_from_bytes(b: Bytes) -> (r: BytesMut)
    ensures
        bytes_mut_view(r) == bytes_view(b),
{
    BytesMut::from(b)
}

/// Calls `BytesMut::new`, an empty buffer.
#[verifier::external_body]
pub fn bytes_mut_new() -> (r: BytesMut)
    ensures
        bytes_mut_view(r) == Seq::<u8>::empty(),
{
    BytesMut::new()
}

/// Calls `BytesMut::capacity`, the number of bytes the buffer holds
/// without reallocating; never below its length.
#[verifier::external_body]
pub fn bytes_mut_capacity(b: &BytesMut) -> (r: usize)
    ensures
        r >= bytes_mut_view(*b).len(),
{
    b.capacity()
}

/// Calls `BytesMut::reserve`, which keeps the bytes. It panics when the
/// length and the request together pass `isize::MAX`, which `requires`
/// rules out.
#[verifier::external_body]
pub fn bytes_mut_reserve(b: &mut BytesMut, additional: usize)
    requires
        bytes_mut_view(*old(b)).len() + additional <= isize::MAX,
    ensures
        bytes_mut_view(*final(b)) == bytes_mut_view(*old(b)),
{
    b.reserve(additional)
}

/// Calls `BytesMut::extend_from_slice`, which appends the bytes.
#[verifier::external_body]
pub fn bytes_mut_extend_from_slice(b: &mut BytesMut, extend: &[u8])
    ensures
        bytes_mut_view(*final(b)) == bytes_mut_view(*old(b)) + extend@,
{
    b.extend_from_slice(extend)
}

/// Calls `fill(0)` on the bytes of the buffer: every byte becomes zero.
#[verifier::external_body]
pub fn bytes_mut_zero(b: &mut BytesMut)
    ensures
        bytes_mut_view(*final(b)) == Seq::new(bytes_mut_view(*old(b)).len(), |i: int| 0u8),
{
    b.fill(0)
}

/// Calls `BytesMut::clear`, which removes every byte.
#[verifier::external_body]
pub fn bytes_mut_clear(b: &mut BytesMut)
    ensures
        bytes_mut_view(*final(b)) == Seq::<u8>::empty(),
{
    b.clear()
}

/// Calls `<BytesMut as Buf>::copy_to_bytes(len)`: the first `len` bytes
/// are returned and the buffer keeps the rest. It panics when `len`
/// exceeds the length, which `requires` rules out.
#[verifier::external_body]
pub fn bytes_mut_copy_to_bytes(b: &mut BytesMut, len: usize) -> (r: Bytes)
    requires
        len <= bytes_mut_view(*old(b)).len(),
    ensures
        bytes_view(r) == bytes_mut_view(*old(b)).take(len as int),
        bytes_mut_view(*final(b)) == bytes_mut_view(*old(b)).skip(len as int),
{
    bytes::Buf::copy_to_bytes(b, len)
}

/// Calls `BytesMut::with_capacity`, an empty buffer with room reserved.
#[verifier::external_body]
pub fn bytes_mut_with_capacity(capacity: usize) -> (r: BytesMut)
    ensures
        bytes_mut_view(r) == Seq::<u8>::empty(),
{
    BytesMut::with_capacity(capacity)
}

/// Calls `<BytesMut as BufMut>::put` with a `Bytes` source, which appends
/// the source's bytes to the buffer.
#[verifier::external_body]
pub fn bytes_mut_put(b: &mut BytesMut, src: Bytes)
    ensures
        bytes_mut_view(*final(b)) == bytes_mut_view(*old(b)) + bytes_view(src),
{
    bytes::BufMut::put(b, src)
}

/// Calls `BytesMut::len`, the number of bytes in the buffer.
#[verifier::external_body]
pub fn bytes_mut_len(b: &BytesMut) -> (r: usize)
    ensures
        r == bytes_mut_view(*b).len(),
{
    b.len()
}

/// Calls `BytesMut::split_to(at)`: the first `at` bytes are returned and the
/// buffer keeps the rest. It panics when `at` exceeds the length, which
/// `requires` rules out.
#[verifier::external_body]
pub fn bytes_mut_split_to(b: &mut BytesMut, at: usize) -> (r: BytesMut)
    requires
        at <= bytes_mut_view(*old(b)).len(),
    ensures
        bytes_mut_view(r) == bytes_mut_view(*old(b)).take(at as int),
        bytes_mut_view(*final(b)) == bytes_mut_view(*old(b)).skip(at as int),
{
    b.split_to(at)
}

/// Calls `BytesMut::freeze`, which turns the buffer into an immutable
/// `Bytes` holding the same bytes.
#[verifier::external_body]
pub fn bytes_mut_freeze(b: BytesMut) -> (r: Bytes)
    ensures
        bytes_view(r) == bytes_mut_view(b),
{
    b.freeze()
}

} // verus!
