use prost::bytes::{Buf, BufMut, BytesMut};
use vstd::prelude::*;

verus! {

#[verifier::external_type_specification]
#[verifier::external_body]
pub struct ExBytesMut(BytesMut);

/// The bytes that a buffer holds, in order.
pub uninterp spec fn buffer_bytes(b: BytesMut) -> Seq<u8>;

/// The largest length a buffer can grow to without its allocation failing.
pub const BUFFER_MAX: usize = isize::MAX as usize;

/// Relies on `BytesMut::len`: the number of bytes held.
#[verifier::external_body]
pub(crate) fn buffer_len(b: &BytesMut) -> (r: usize)
    ensures
        r == buffer_bytes(*b).len(),
{
    b.len()
}

/// Relies on `BytesMut::split_to`: the first `at` bytes move to the result,
/// the rest stay. It panics past the end, which `requires` excludes.
#[verifier::external_body]
pub(crate) fn buffer_split_to(b: &mut BytesMut, at: usize) -> (r: BytesMut)
    requires
        at <= buffer_bytes(*old(b)).len(),
    ensures
        buffer_bytes(r) == buffer_bytes(*old(b)).subrange(0, at as int),
        buffer_bytes(*final(b)) == buffer_bytes(*old(b)).subrange(
            at as int,
            buffer_bytes(*old(b)).len() as int,
        ),
{
    b.split_to(at)
}

/// Relies on `Buf::get_u32` of `BytesMut`: reads four bytes as a big-endian
/// integer and consumes them. It panics on fewer than four bytes.
#[verifier::external_body]
pub(crate) fn buffer_get_u32(b: &mut BytesMut) -> (r: u32)
    requires
        buffer_bytes(*old(b)).len() >= 4,
    ensures
        r == be_u32(buffer_bytes(*old(b))),
        buffer_bytes(*final(b)) == buffer_bytes(*old(b)).subrange(
            4,
            buffer_bytes(*old(b)).len() as int,
        ),
{
    b.get_u32()
}

/// Relies on `BufMut::put_u32` of `BytesMut`: appends the four big-endian
/// bytes of `n`. Growth past `isize::MAX` bytes panics, which `requires`
/// excludes.
#[verifier::external_body]
pub(crate) fn buffer_put_u32(b: &mut BytesMut, n: u32)
    requires
        buffer_bytes(*old(b)).len() + 4 <= BUFFER_MAX,
    ensures
        buffer_bytes(*final(b)) == buffer_bytes(*old(b)) + be_bytes(n),
{
    b.put_u32(n)
}

/// Relies on `BytesMut::extend_from_slice`: appends the bytes of `s`.
/// Growth past `isize::MAX` bytes panics, which `requires` excludes.
#[verifier::external_body]
pub(crate) fn buffer_extend(b: &mut BytesMut, s: &[u8])
    requires
        buffer_bytes(*old(b)).len() + s@.len() <= BUFFER_MAX,
    ensures
        buffer_bytes(*final(b)) == buffer_bytes(*old(b)) + s@,
{
    b.extend_from_slice(s)
}

/// The big-endian integer in the first four bytes of `s`.
pub open spec fn be_u32(s: Seq<u8>) -> u32
    recommends
        s.len() >= 4,
{
    ((s[0] as u32) << 24u32) | ((s[1] as u32) << 16u32) | ((s[2] as u32) << 8u32) | (s[3] as u32)
}

/// The four big-endian bytes of `n`.
pub open spec fn be_bytes(n: u32) -> Seq<u8> {
    seq![(n >> 24u32) as u8, (n >> 16u32) as u8, (n >> 8u32) as u8, n as u8]
}

/// Reading back the four bytes written for `n` gives `n`, whatever follows.
pub proof fn lemma_be_round_trip(n: u32, rest: Seq<u8>)
    ensures
        be_u32(be_bytes(n) + rest) == n,
        (be_bytes(n) + rest).len() == rest.len() + 4,
{
    let s = be_bytes(n) + rest;
    assert(s[0] == (n >> 24u32) as u8);
    assert(s[1] == (n >> 16u32) as u8);
    assert(s[2] == (n >> 8u32) as u8);
    assert(s[3] == n as u8);
    assert(((((n >> 24u32) as u8) as u32) << 24u32) | ((((n >> 16u32) as u8) as u32) << 16u32) | (
    (((n >> 8u32) as u8) as u32) << 8u32) | ((n as u8) as u32) == n) by (bit_vector);
}

} // verus!
