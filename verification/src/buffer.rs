//! Byte buffers of the `bytes` crate, as the library uses them: reading
//! fixed-width integers out of a received frame, and building a frame to send.

use bytes::{Buf, BufMut, Bytes, BytesMut};
use vstd::prelude::*;

verus! {

/// The unsigned little-endian value of the four bytes of `s` at `at`.
pub open spec fn le_u32(s: Seq<u8>, at: int) -> int {
    s[at] as int + s[at + 1] as int * 0x100 + s[at + 2] as int * 0x1_0000 + s[at + 3] as int
        * 0x100_0000
}

/// The two's-complement reading of an unsigned 32-bit value.
pub open spec fn signed_32(v: int) -> int {
    if v >= 0x8000_0000 {
        v - 0x1_0000_0000
    } else {
        v
    }
}

/// The two's-complement reading of an unsigned 8-bit value.
pub open spec fn signed_8(v: int) -> int {
    if v >= 0x80 {
        v - 0x100
    } else {
        v
    }
}

/// The four little-endian bytes of `v`.
pub open spec fn le_bytes_u32(v: u32) -> Seq<u8> {
    seq![
        (v % 0x100) as u8,
        ((v / 0x100) % 0x100) as u8,
        ((v / 0x1_0000) % 0x100) as u8,
        (v / 0x100_0000) as u8,
    ]
}

/// Reading back the little-endian bytes of a value gives the value.
pub proof fn lemma_le_u32_of_le_bytes(v: u32)
    ensures
        le_bytes_u32(v).len() == 4,
        le_u32(le_bytes_u32(v), 0) == v,
{
}

#[verifier::external_type_specification]
#[verifier::external_body]
pub struct ExBytes(Bytes);

#[verifier::external_type_specification]
#[verifier::external_body]
pub struct ExBytesMut(BytesMut);

/// The bytes an immutable `Bytes` buffer holds, in order.
pub uninterp spec fn bytes_contents(b: Bytes) -> Seq<u8>;

/// The bytes a growable `BytesMut` buffer holds, in order.
pub uninterp spec fn bytes_mut_contents(b: BytesMut) -> Seq<u8>;

/// `Buf::get_u8` on the slice that starts at `pos`: the byte there.
#[verifier::external_body]
pub(crate) fn get_u8_at(data: &[u8], pos: usize) -> (b: u8)
    requires
        pos < data@.len(),
    ensures
        b == data@[pos as int],
{
    let mut buf: &[u8] = &data[pos..];
    buf.get_u8()
}

/// `Buf::get_i8` on the slice that starts at `pos`: the byte there, read as
/// two's complement.
#[verifier::external_body]
pub(crate) fn get_i8_at(data: &[u8], pos: usize) -> (v: i8)
    requires
        pos < data@.len(),
    ensures
        v as int == signed_8(data@[pos as int] as int),
{
    let mut buf: &[u8] = &data[pos..];
    buf.get_i8()
}

/// `Buf::get_u32_le` on the slice that starts at `pos`: the four bytes there,
/// little-endian.
#[verifier::external_body]
pub(crate) fn get_u32_le_at(data: &[u8], pos: usize) -> (v: u32)
    requires
        pos + 4 <= data@.len(),
    ensures
        v as int == le_u32(data@, pos as int),
{
    let mut buf: &[u8] = &data[pos..];
    buf.get_u32_le()
}

/// `Buf::get_i32_le` on the slice that starts at `pos`: the four bytes there,
/// little-endian, read as two's complement.
#[verifier::external_body]
pub(crate) fn get_i32_le_at(data: &[u8], pos: usize) -> (v: i32)
    requires
        pos + 4 <= data@.len(),
    ensures
        v as int == signed_32(le_u32(data@, pos as int)),
{
    let mut buf: &[u8] = &data[pos..];
    buf.get_i32_le()
}

/// `Buf::copy_to_slice` into an array of `N` bytes, on the slice that starts
/// at `pos`: the `N` bytes there.
#[verifier::external_body]
pub(crate) fn copy_array_at<const N: usize>(data: &[u8], pos: usize) -> (out: [u8; N])
    requires
        pos + N <= data@.len(),
    ensures
        out@ == data@.subrange(pos as int, pos + N),
{
    let mut buf: &[u8] = &data[pos..];
    let mut out = [0u8; N];
    buf.copy_to_slice(&mut out);
    out
}

/// `BytesMut::with_capacity`: an empty buffer.
#[verifier::external_body]
pub(crate) fn bytes_mut_with_capacity(capacity: usize) -> (b: BytesMut)
    ensures
        bytes_mut_contents(b) == Seq::<u8>::empty(),
{
    BytesMut::with_capacity(capacity)
}

/// `BufMut::put_u8` on a `BytesMut`: appends the byte. Like `Vec::push`, it
/// fails only when the buffer would outgrow the address space.
#[verifier::external_body]
pub(crate) fn put_u8(b: &mut BytesMut, v: u8)
    ensures
        bytes_mut_contents(*final(b)) == bytes_mut_contents(*old(b)).push(v),
{
    b.put_u8(v)
}

/// `BufMut::put_bytes` on a `BytesMut`: appends `cnt` copies of `val`.
#[verifier::external_body]
pub(crate) fn put_bytes(b: &mut BytesMut, val: u8, cnt: usize)
    ensures
        bytes_mut_contents(*final(b)) == bytes_mut_contents(*old(b)) + Seq::new(
            cnt as nat,
            |i: int| val,
        ),
{
    b.put_bytes(val, cnt)
}

/// `BufMut::put_u32_le` on a `BytesMut`: appends the four little-endian bytes
/// of `v`.
#[verifier::external_body]
pub(crate) fn put_u32_le(b: &mut BytesMut, v: u32)
    ensures
        bytes_mut_contents(*final(b)) == bytes_mut_contents(*old(b)) + le_bytes_u32(v),
{
    b.put_u32_le(v)
}

/// `BufMut::put` on a `BytesMut` with a byte slice as the source: appends
/// the slice.
#[verifier::external_body]
pub(crate) fn put_slice(b: &mut BytesMut, src: &[u8])
    ensures
        bytes_mut_contents(*final(b)) == bytes_mut_contents(*old(b)) + src@,
{
    b.put(src)
}

/// `BytesMut::extend_from_slice`: appends the slice.
#[verifier::external_body]
pub(crate) fn extend_from_slice(b: &mut BytesMut, src: &[u8])
    ensures
        bytes_mut_contents(*final(b)) == bytes_mut_contents(*old(b)) + src@,
{
    b.extend_from_slice(src)
}

/// `BytesMut::freeze`: the same bytes, as an immutable `Bytes`.
#[verifier::external_body]
pub(crate) fn freeze(b: BytesMut) -> (r: Bytes)
    ensures
        bytes_contents(r) == bytes_mut_contents(b),
{
    b.freeze()
}

/// `Bytes::copy_from_slice`: a `Bytes` holding a copy of the slice.
#[verifier::external_body]
pub(crate) fn bytes_copy_from_slice(src: &[u8]) -> (r: Bytes)
    ensures
        bytes_contents(r) == src@,
{
    Bytes::copy_from_slice(src)
}

/// `Bytes::from_static`: a `Bytes` over the static slice.
#[verifier::external_body]
pub(crate) fn bytes_from_static(src: &'static [u8]) -> (r: Bytes)
    ensures
        bytes_contents(r) == src@,
{
    Bytes::from_static(src)
}

} // verus!
