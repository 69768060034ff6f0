//! The byte buffers of the `bytes` crate, and std's UTF-8 check, as the
//! codec uses them. Nothing in this file is proved: each contract restates
//! what the called function documents.

use vstd::prelude::*;
use vstd::utf8::{decode_utf8, valid_utf8};

verus! {

/// The value of four bytes read as a little-endian unsigned integer.
pub open spec fn u32_from_le(b: Seq<u8>) -> u32
    recommends
        b.len() == 4,
{
    (b[0] as int + b[1] as int * 0x100 + b[2] as int * 0x1_0000 + b[3] as int * 0x100_0000) as u32
}

/// The four bytes that hold `x` in little-endian order.
pub open spec fn u32_le_bytes(x: u32) -> Seq<u8> {
    seq![
        (x as int % 0x100) as u8,
        (x as int / 0x100 % 0x100) as u8,
        (x as int / 0x1_0000 % 0x100) as u8,
        (x as int / 0x100_0000 % 0x100) as u8,
    ]
}

/// `bytes::BytesMut`, a growable byte buffer.
#[verifier::external_type_specification]
#[verifier::external_body]
pub struct ExBytesMut(bytes::BytesMut);

/// The bytes that a `bytes::BytesMut` holds, first to last.
pub uninterp spec fn bytes_mut_contents(buf: bytes::BytesMut) -> Seq<u8>;

/// `BytesMut::with_capacity`: a buffer that holds no bytes yet. The capacity
/// is a hint to the allocator and says nothing about the contents.
#[verifier::external_body]
pub(crate) fn bytes_mut_with_capacity(capacity: usize) -> (buf: bytes::BytesMut)
    requires
        capacity <= 0x7fff_ffff,
    ensures
        bytes_mut_contents(buf) == Seq::<u8>::empty(),
{
    bytes::BytesMut::with_capacity(capacity)
}

/// `BufMut::put_slice` on a `BytesMut`: appends `src` to the buffer, which
/// grows as needed.
#[verifier::external_body]
pub(crate) fn bytes_mut_put_slice(buf: &mut bytes::BytesMut, src: &[u8])
    requires
        bytes_mut_contents(*old(buf)).len() + src@.len() <= 0x7fff_ffff,
    ensures
        bytes_mut_contents(*final(buf)) == bytes_mut_contents(*old(buf)) + src@,
{
    bytes::BufMut::put_slice(buf, src)
}

/// `BufMut::put_u32_le` on a `BytesMut`: appends the four bytes of `n`,
/// least significant first.
#[verifier::external_body]
pub(crate) fn bytes_mut_put_u32_le(buf: &mut bytes::BytesMut, n: u32)
    requires
        bytes_mut_contents(*old(buf)).len() + 4 <= 0x7fff_ffff,
    ensures
        bytes_mut_contents(*final(buf)) == bytes_mut_contents(*old(buf)) + u32_le_bytes(n),
{
    bytes::BufMut::put_u32_le(buf, n)
}

/// `to_vec` on the slice that a `BytesMut` dereferences to: a copy of the
/// buffer's bytes.
#[verifier::external_body]
pub(crate) fn bytes_mut_to_vec(buf: &bytes::BytesMut) -> (out: Vec<u8>)
    ensures
        out@ == bytes_mut_contents(*buf),
{
    buf.to_vec()
}

/// `Buf::get_u32_le` on a byte slice: reads the first four bytes as a
/// little-endian integer. The cursor that the call advances is a local copy
/// of the reference, so the caller's slice is untouched. The call panics on
/// fewer than four bytes, which the precondition leaves out.
#[verifier::external_body]
pub(crate) fn slice_get_u32_le(src: &[u8]) -> (value: u32)
    requires
        src@.len() >= 4,
    ensures
        value == u32_from_le(src@.subrange(0, 4)),
{
    let mut cursor = src;
    bytes::Buf::get_u32_le(&mut cursor)
}

/// `String::from_utf8`: the string that the bytes encode, or nothing when
/// they are not well-formed UTF-8.
#[verifier::external_body]
pub(crate) fn string_from_utf8(bytes: Vec<u8>) -> (text: Option<String>)
    ensures
        text is Some <==> valid_utf8(bytes@),
        text is Some ==> text->0@ == decode_utf8(bytes@),
{
    String::from_utf8(bytes).ok()
}

} // verus!
