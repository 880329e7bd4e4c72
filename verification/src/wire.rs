//! Big-endian byte-level helpers for the fixed 48-byte NTP frame.
//!
//! All multi-byte integers on the wire are big-endian. This module gives the
//! mathematical reading of four bytes as a `u32`, the reverse direction, the
//! two's-complement reinterpretations used for the signed fields, and the
//! bit-split of the flags byte, together with the round-trip lemmas the
//! message codec rests on.

use vstd::prelude::*;

verus! {

/// The `u32` that four bytes spell in big-endian order.
pub open spec fn be32(b0: u8, b1: u8, b2: u8, b3: u8) -> u32 {
    ((b0 as u32) << 24) | ((b1 as u32) << 16) | ((b2 as u32) << 8) | (b3 as u32)
}

/// Most significant byte of `x`.
pub open spec fn be32_byte0(x: u32) -> u8 {
    ((x >> 24) & 0xff) as u8
}

pub open spec fn be32_byte1(x: u32) -> u8 {
    ((x >> 16) & 0xff) as u8
}

pub open spec fn be32_byte2(x: u32) -> u8 {
    ((x >> 8) & 0xff) as u8
}

/// Least significant byte of `x`.
pub open spec fn be32_byte3(x: u32) -> u8 {
    (x & 0xff) as u8
}

/// The four big-endian bytes of `x`, most significant first.
pub open spec fn be32_seq(x: u32) -> Seq<u8> {
    seq![be32_byte0(x), be32_byte1(x), be32_byte2(x), be32_byte3(x)]
}

/// Writing a `u32` big-endian and reading the four bytes back yields the
/// same value.
pub proof fn lemma_be32_of_bytes(x: u32)
    by (bit_vector)
    ensures
        be32(be32_byte0(x), be32_byte1(x), be32_byte2(x), be32_byte3(x)) == x,
{
}

/// Assembles four bytes, most significant first, into a `u32`.
pub fn be32_of(b0: u8, b1: u8, b2: u8, b3: u8) -> (r: u32)
    ensures
        r == be32(b0, b1, b2, b3),
{
    ((b0 as u32) << 24) | ((b1 as u32) << 16) | ((b2 as u32) << 8) | (b3 as u32)
}

/// Reads four big-endian bytes of `b` starting at `off`.
pub fn read_be32(b: &[u8], off: usize) -> (r: u32)
    requires
        off + 4 <= b@.len(),
    ensures
        r == be32(b@[off as int], b@[off + 1], b@[off + 2], b@[off + 3]),
{
    let b0 = b[off];
    let b1 = b[off + 1];
    let b2 = b[off + 2];
    let b3 = b[off + 3];
    ((b0 as u32) << 24) | ((b1 as u32) << 16) | ((b2 as u32) << 8) | (b3 as u32)
}

/// Appends the four big-endian bytes of `x` to `v`.
pub fn push_be32(v: &mut Vec<u8>, x: u32)
    ensures
        final(v)@ == old(v)@ + be32_seq(x),
{
    assert((x >> 24) & 0xff < 256 && (x >> 16) & 0xff < 256 && (x >> 8) & 0xff < 256 && x & 0xff
        < 256) by (bit_vector);
    v.push(((x >> 24) & 0xff) as u8);
    v.push(((x >> 16) & 0xff) as u8);
    v.push(((x >> 8) & 0xff) as u8);
    v.push((x & 0xff) as u8);
    assert(v@ =~= old(v)@ + be32_seq(x));
}

/// The signed value that the bit pattern of `u` denotes in two's complement.
pub open spec fn i32_of_u32(u: u32) -> i32 {
    if u < 0x8000_0000 {
        u as i32
    } else {
        (u - 0x1_0000_0000) as i32
    }
}

/// The bit pattern of `x` read as an unsigned value.
pub open spec fn u32_of_i32(x: i32) -> u32 {
    if x >= 0 {
        x as u32
    } else {
        (x + 0x1_0000_0000) as u32
    }
}

pub proof fn lemma_i32_u32_round_trip(x: i32)
    ensures
        i32_of_u32(u32_of_i32(x)) == x,
{
}

/// Executable two's-complement reading of a `u32` as an `i32`.
pub fn u32_to_i32(u: u32) -> (r: i32)
    ensures
        r == i32_of_u32(u),
{
    if u < 0x8000_0000 {
        u as i32
    } else {
        ((u as i64) - 0x1_0000_0000i64) as i32
    }
}

/// Executable two's-complement writing of an `i32` as a `u32`.
pub fn i32_to_u32(x: i32) -> (r: u32)
    ensures
        r == u32_of_i32(x),
{
    if x >= 0 {
        x as u32
    } else {
        ((x as i64) + 0x1_0000_0000i64) as u32
    }
}

/// The signed value that the bit pattern of `u` denotes in two's complement.
pub open spec fn i8_of_u8(u: u8) -> i8 {
    if u < 0x80 {
        u as i8
    } else {
        (u - 0x100) as i8
    }
}

/// The bit pattern of `x` read as an unsigned value.
pub open spec fn u8_of_i8(x: i8) -> u8 {
    if x >= 0 {
        x as u8
    } else {
        (x + 0x100) as u8
    }
}

pub proof fn lemma_i8_u8_round_trip(x: i8)
    ensures
        i8_of_u8(u8_of_i8(x)) == x,
{
}

/// Executable two's-complement reading of a `u8` as an `i8`.
pub fn u8_to_i8(u: u8) -> (r: i8)
    ensures
        r == i8_of_u8(u),
{
    if u < 0x80 {
        u as i8
    } else {
        ((u as i16) - 0x100i16) as i8
    }
}

/// Executable two's-complement writing of an `i8` as a `u8`.
pub fn i8_to_u8(x: i8) -> (r: u8)
    ensures
        r == u8_of_i8(x),
{
    if x >= 0 {
        x as u8
    } else {
        ((x as i16) + 0x100i16) as u8
    }
}

/// Leap-indicator bits of the flags byte (bits 7-6).
pub open spec fn flags_li_bits(flags: u8) -> u8 {
    flags >> 6
}

/// Version bits of the flags byte (bits 5-3).
pub open spec fn flags_vn_bits(flags: u8) -> u8 {
    (flags >> 3) & 0x07
}

/// Mode bits of the flags byte (bits 2-0).
pub open spec fn flags_mode_bits(flags: u8) -> u8 {
    flags & 0x07
}

/// The flags byte that packs the three bit fields.
pub open spec fn flags_byte(li: u8, vn: u8, mode: u8) -> u8 {
    ((li << 6) | (vn << 3) | mode) as u8
}

/// The three bit fields of the flags byte are bounded by their widths.
pub proof fn lemma_flags_bits_bounded(flags: u8)
    by (bit_vector)
    ensures
        flags_li_bits(flags) < 4,
        flags_vn_bits(flags) < 8,
        flags_mode_bits(flags) < 8,
{
}

/// Packing in-range bit fields and splitting the byte again yields the
/// same fields.
pub proof fn lemma_flags_split_of_byte(li: u8, vn: u8, mode: u8)
    by (bit_vector)
    requires
        li < 4,
        vn < 8,
        mode < 8,
    ensures
        flags_li_bits(flags_byte(li, vn, mode)) == li,
        flags_vn_bits(flags_byte(li, vn, mode)) == vn,
        flags_mode_bits(flags_byte(li, vn, mode)) == mode,
{
}

/// Executable packing of the flags byte.
pub fn pack_flags(li: u8, vn: u8, mode: u8) -> (r: u8)
    requires
        li < 4,
        vn < 8,
        mode < 8,
    ensures
        r == flags_byte(li, vn, mode),
{
    assert((li << 6) | (vn << 3) | mode < 256) by (bit_vector)
        requires
            li < 4 && vn < 8 && mode < 8,
    ;
    (li << 6) | (vn << 3) | mode
}

} // verus!
