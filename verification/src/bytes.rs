//! Primitive decoding of fixed-width scalars from a byte buffer.
//!
//! The wire format is a flat byte buffer with little-endian multi-byte
//! fields.  (The producer emits the scalars in its host's native order;
//! that order is little-endian on every platform the telemetry stream is
//! known to come from, so the layout is pinned to little-endian here
//! rather than left to vary with the consumer's architecture.)
//!
//! Every reader returns `None` instead of panicking when the requested
//! field does not fit inside the buffer: a datagram may legitimately be
//! shorter than the full schema, and a short read must stay recoverable.

use vstd::prelude::*;

verus! {

/// The unsigned byte stored at offset `i`.
pub open spec fn u8_at(b: Seq<u8>, i: int) -> u8 {
    b[i]
}

/// The signed byte stored at offset `i` (same bits as `u8_at`).
pub open spec fn i8_at(b: Seq<u8>, i: int) -> i8 {
    b[i] as i8
}

/// The little-endian 16-bit integer stored at offsets `i..i + 2`.
pub open spec fn u16_at(b: Seq<u8>, i: int) -> u16 {
    (b[i] as u16) | ((b[i + 1] as u16) << 8)
}

/// The little-endian 32-bit integer stored at offsets `i..i + 4`.
pub open spec fn u32_at(b: Seq<u8>, i: int) -> u32 {
    (b[i] as u32) | ((b[i + 1] as u32) << 8) | ((b[i + 2] as u32) << 16) | ((b[i + 3] as u32)
        << 24)
}

/// The boolean stored at offsets `i..i + 4`: the wire encodes it as a
/// 32-bit integer, true iff nonzero.
pub open spec fn bool_at(b: Seq<u8>, i: int) -> bool {
    u32_at(b, i) != 0
}

/// The raw bit pattern of the IEEE-754 32-bit float stored at
/// offsets `i..i + 4` (bit-identical to the little-endian integer there).
pub open spec fn f32_bits_at(b: Seq<u8>, i: int) -> u32 {
    u32_at(b, i)
}

/// Reads the boolean at `index`, wire-encoded as a 32-bit integer.
pub fn read_bool(bytes: &[u8], index: usize) -> (r: Option<bool>)
    ensures
        index + 4 <= bytes@.len() ==> r == Some(bool_at(bytes@, index as int)),
        index + 4 > bytes@.len() ==> r is None,
{
    match read_u32(bytes, index) {
        Some(v) => Some(v != 0),
        None => None,
    }
}

/// Reads the unsigned byte at `index`.
pub fn read_u8(bytes: &[u8], index: usize) -> (r: Option<u8>)
    ensures
        index < bytes@.len() ==> r == Some(u8_at(bytes@, index as int)),
        index >= bytes@.len() ==> r is None,
{
    if index < bytes.len() {
        Some(bytes[index])
    } else {
        None
    }
}

/// Reads the signed byte at `index`.
pub fn read_i8(bytes: &[u8], index: usize) -> (r: Option<i8>)
    ensures
        index < bytes@.len() ==> r == Some(i8_at(bytes@, index as int)),
        index >= bytes@.len() ==> r is None,
{
    if index < bytes.len() {
        Some(bytes[index] as i8)
    } else {
        None
    }
}

/// Reads the little-endian 16-bit integer at `index`.
pub fn read_u16(bytes: &[u8], index: usize) -> (r: Option<u16>)
    ensures
        index + 2 <= bytes@.len() ==> r == Some(u16_at(bytes@, index as int)),
        index + 2 > bytes@.len() ==> r is None,
{
    if bytes.len() >= 2 && index <= bytes.len() - 2 {
        Some((bytes[index] as u16) | ((bytes[index + 1] as u16) << 8))
    } else {
        None
    }
}

/// Reads the little-endian 32-bit integer at `index`.
pub fn read_u32(bytes: &[u8], index: usize) -> (r: Option<u32>)
    ensures
        index + 4 <= bytes@.len() ==> r == Some(u32_at(bytes@, index as int)),
        index + 4 > bytes@.len() ==> r is None,
{
    if bytes.len() >= 4 && index <= bytes.len() - 4 {
        Some(
            (bytes[index] as u32) | ((bytes[index + 1] as u32) << 8) | ((bytes[index + 2] as u32)
                << 16) | ((bytes[index + 3] as u32) << 24),
        )
    } else {
        None
    }
}

/// The two little-endian bytes of `v`.
pub open spec fn u16_to_bytes(v: u16) -> Seq<u8> {
    seq![(v & 0xff) as u8, ((v >> 8) & 0xff) as u8]
}

/// The four little-endian bytes of `v`.
pub open spec fn u32_to_bytes(v: u32) -> Seq<u8> {
    seq![
        (v & 0xff) as u8,
        ((v >> 8) & 0xff) as u8,
        ((v >> 16) & 0xff) as u8,
        ((v >> 24) & 0xff) as u8,
    ]
}

/// The wire encoding of a boolean: a 32-bit integer, 1 for true.
pub open spec fn bool_to_bytes(v: bool) -> Seq<u8> {
    u32_to_bytes(if v {
        1
    } else {
        0
    })
}

/// Law: a byte written at offset `i` is read back unchanged.
pub proof fn lemma_u8_round_trip(b: Seq<u8>, i: int, v: u8)
    requires
        0 <= i < b.len(),
        b[i] == v,
    ensures
        u8_at(b, i) == v,
{
}

/// Law: a signed byte written (as its bit pattern) at offset `i` is read
/// back unchanged.
pub proof fn lemma_i8_round_trip(b: Seq<u8>, i: int, v: i8)
    requires
        0 <= i < b.len(),
        b[i] == v as u8,
    ensures
        i8_at(b, i) == v,
{
    assert((v as u8) as i8 == v) by (bit_vector);
}

/// Law: a 16-bit value encoded at offset `i` is read back unchanged.
pub proof fn lemma_u16_round_trip(b: Seq<u8>, i: int, v: u16)
    requires
        0 <= i,
        i + 2 <= b.len(),
        b.subrange(i, i + 2) == u16_to_bytes(v),
    ensures
        u16_at(b, i) == v,
{
    assert(b[i] == u16_to_bytes(v)[0]);
    assert(b[i + 1] == u16_to_bytes(v)[1]);
    assert((v & 0xff) < 256 && ((v >> 8) & 0xff) < 256) by (bit_vector);
    assert(v == (v & 0xff) | (((v >> 8) & 0xff) << 8)) by (bit_vector);
}

/// Law: a 32-bit value encoded at offset `i` is read back unchanged.
pub proof fn lemma_u32_round_trip(b: Seq<u8>, i: int, v: u32)
    requires
        0 <= i,
        i + 4 <= b.len(),
        b.subrange(i, i + 4) == u32_to_bytes(v),
    ensures
        u32_at(b, i) == v,
{
    assert(b[i] == u32_to_bytes(v)[0]);
    assert(b[i + 1] == u32_to_bytes(v)[1]);
    assert(b[i + 2] == u32_to_bytes(v)[2]);
    assert(b[i + 3] == u32_to_bytes(v)[3]);
    assert((v & 0xff) < 256 && ((v >> 8) & 0xff) < 256 && ((v >> 16) & 0xff) < 256 && ((v >> 24)
        & 0xff) < 256) by (bit_vector);
    assert(v == (v & 0xff) | (((v >> 8) & 0xff) << 8) | (((v >> 16) & 0xff) << 16) | (((v >> 24)
        & 0xff) << 24)) by (bit_vector);
}

/// Law: a boolean encoded at offset `i` (as a 32-bit integer) is read
/// back unchanged; the raw bit pattern at the same offset round-trips
/// through `f32_bits_at` as well.
pub proof fn lemma_bool_round_trip(b: Seq<u8>, i: int, v: bool)
    requires
        0 <= i,
        i + 4 <= b.len(),
        b.subrange(i, i + 4) == bool_to_bytes(v),
    ensures
        bool_at(b, i) == v,
{
    let w: u32 = if v {
        1
    } else {
        0
    };
    lemma_u32_round_trip(b, i, w);
}

} // verus!
