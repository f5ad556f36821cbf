//! Big-endian byte layouts and the outside byte-handling functions the
//! frames are built and read with.
use bytebuffer::ByteBuffer;
use byteorder::{BigEndian, ByteOrder};
use vstd::prelude::*;

verus! {

/// The two bytes of `v`, most significant first.
pub open spec fn be_u16(v: u16) -> Seq<u8> {
    seq![(v >> 8u16) as u8, v as u8]
}

/// The four bytes of `v`, most significant first.
pub open spec fn be_u32(v: u32) -> Seq<u8> {
    seq![(v >> 24u32) as u8, (v >> 16u32) as u8, (v >> 8u32) as u8, v as u8]
}

/// Network order of a signed 16-bit value (its two's complement bits).
pub open spec fn be_i16(v: i16) -> Seq<u8> {
    be_u16(v as u16)
}

/// Network order of a signed 32-bit value (its two's complement bits).
pub open spec fn be_i32(v: i32) -> Seq<u8> {
    be_u32(v as u32)
}

#[verifier::external_type_specification]
#[verifier::external_body]
pub struct ExByteBuffer(ByteBuffer);

/// The bytes a `ByteBuffer` holds.
pub uninterp spec fn buffer_bytes(b: ByteBuffer) -> Seq<u8>;

/// Whether the next write of a `ByteBuffer` appends: its write cursor stands
/// at the end of its data, no bit write is pending, and its order is
/// big-endian.
pub uninterp spec fn buffer_appends(b: ByteBuffer) -> bool;

/// Relies on `ByteBuffer::new`: empty data, write cursor 0, no pending bits,
/// big-endian order.
pub assume_specification[ ByteBuffer::new ]() -> (r: ByteBuffer)
    ensures
        buffer_bytes(r) == Seq::<u8>::empty(),
        buffer_appends(r),
;

/// Relies on `ByteBuffer::write_bytes`: with the cursor at the end, the bytes
/// are appended and the cursor moves past them.
pub assume_specification[ ByteBuffer::write_bytes ](b: &mut ByteBuffer, bytes: &[u8])
    requires
        buffer_appends(*old(b)),
    ensures
        buffer_bytes(*final(b)) == buffer_bytes(*old(b)) + bytes@,
        buffer_appends(*final(b)),
;

/// Relies on `ByteBuffer::write_u8`, which writes the one byte through
/// `write_bytes`.
pub assume_specification[ ByteBuffer::write_u8 ](b: &mut ByteBuffer, val: u8)
    requires
        buffer_appends(*old(b)),
    ensures
        buffer_bytes(*final(b)) == buffer_bytes(*old(b)).push(val),
        buffer_appends(*final(b)),
;

/// Relies on `ByteBuffer::write_i8`, which writes `val as u8`.
pub assume_specification[ ByteBuffer::write_i8 ](b: &mut ByteBuffer, val: i8)
    requires
        buffer_appends(*old(b)),
    ensures
        buffer_bytes(*final(b)) == buffer_bytes(*old(b)).push(val as u8),
        buffer_appends(*final(b)),
;

/// Relies on `ByteBuffer::write_i16`: `val as u16` in the buffer's order,
/// here big-endian.
pub assume_specification[ ByteBuffer::write_i16 ](b: &mut ByteBuffer, val: i16)
    requires
        buffer_appends(*old(b)),
    ensures
        buffer_bytes(*final(b)) == buffer_bytes(*old(b)) + be_i16(val),
        buffer_appends(*final(b)),
;

/// Relies on `ByteBuffer::write_i32`: `val as u32` in the buffer's order,
/// here big-endian.
pub assume_specification[ ByteBuffer::write_i32 ](b: &mut ByteBuffer, val: i32)
    requires
        buffer_appends(*old(b)),
    ensures
        buffer_bytes(*final(b)) == buffer_bytes(*old(b)) + be_i32(val),
        buffer_appends(*final(b)),
;

/// Relies on `ByteBuffer::into_vec`, which hands out the buffer's data.
pub assume_specification[ ByteBuffer::into_vec ](b: ByteBuffer) -> (r: Vec<u8>)
    ensures
        r@ == buffer_bytes(b),
;

/// Relies on byteorder's `BigEndian::read_i16`: the first two bytes, most
/// significant first (it panics on fewer).
#[verifier::external_body]
pub(crate) fn read_be_i16(bytes: &[u8]) -> (r: i16)
    requires
        bytes@.len() >= 2,
    ensures
        be_i16(r) == bytes@.subrange(0, 2),
{
    BigEndian::read_i16(bytes)
}

/// Relies on byteorder's `BigEndian::read_i32`: the first four bytes, most
/// significant first (it panics on fewer).
#[verifier::external_body]
pub(crate) fn read_be_i32(bytes: &[u8]) -> (r: i32)
    requires
        bytes@.len() >= 4,
    ensures
        be_i32(r) == bytes@.subrange(0, 4),
{
    BigEndian::read_i32(bytes)
}

} // verus!
