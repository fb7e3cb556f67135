//! Byte-level building blocks shared by every codec: little- and big-endian
//! splittings of 16- and 32-bit values and the two's-complement bridge
//! between the signed attribute values and their unsigned wire form.

use vstd::prelude::*;

verus! {

/// The two little-endian bytes of a 16-bit value.
pub open spec fn le16(v: u16) -> Seq<u8> {
    seq![(v % 0x100) as u8, (v / 0x100) as u8]
}

/// The four little-endian bytes of a 32-bit value.
pub open spec fn le32(v: u32) -> Seq<u8> {
    seq![
        (v % 0x100) as u8,
        ((v / 0x100) % 0x100) as u8,
        ((v / 0x10000) % 0x100) as u8,
        (v / 0x1000000) as u8,
    ]
}

/// The two big-endian bytes of a 16-bit value.
pub open spec fn be16(v: u16) -> Seq<u8> {
    seq![(v / 0x100) as u8, (v % 0x100) as u8]
}

/// The four big-endian bytes of a 32-bit value.
pub open spec fn be32(v: u32) -> Seq<u8> {
    seq![
        (v / 0x1000000) as u8,
        ((v / 0x10000) % 0x100) as u8,
        ((v / 0x100) % 0x100) as u8,
        (v % 0x100) as u8,
    ]
}

/// The 16-bit value held by two little-endian bytes.
pub open spec fn u16_le_val(b0: u8, b1: u8) -> u16 {
    (b0 as int + 0x100 * (b1 as int)) as u16
}

/// The 32-bit value held by four little-endian bytes.
pub open spec fn u32_le_val(b0: u8, b1: u8, b2: u8, b3: u8) -> u32 {
    (b0 as int + 0x100 * (b1 as int) + 0x10000 * (b2 as int) + 0x1000000 * (b3 as int)) as u32
}

/// The 16-bit value held by two big-endian bytes.
pub open spec fn u16_be_val(b0: u8, b1: u8) -> u16 {
    (0x100 * (b0 as int) + b1 as int) as u16
}

/// The 32-bit value held by four big-endian bytes.
pub open spec fn u32_be_val(b0: u8, b1: u8, b2: u8, b3: u8) -> u32 {
    (0x1000000 * (b0 as int) + 0x10000 * (b1 as int) + 0x100 * (b2 as int) + b3 as int) as u32
}

/// The signed reading of a wire byte (two's complement).
pub open spec fn i8_of_u8(v: u8) -> i8 {
    if v < 0x80 {
        v as i8
    } else {
        (v - 0x100) as i8
    }
}

/// The wire byte of a signed 8-bit value (two's complement).
pub open spec fn u8_of_i8(v: i8) -> u8 {
    if v >= 0 {
        v as u8
    } else {
        (v + 0x100) as u8
    }
}

/// The signed reading of a 16-bit wire value (two's complement).
pub open spec fn i16_of_u16(v: u16) -> i16 {
    if v < 0x8000 {
        v as i16
    } else {
        (v - 0x10000) as i16
    }
}

/// The 16-bit wire value of a signed value (two's complement).
pub open spec fn u16_of_i16(v: i16) -> u16 {
    if v >= 0 {
        v as u16
    } else {
        (v + 0x10000) as u16
    }
}

/// The signed reading of a 32-bit wire value (two's complement).
pub open spec fn i32_of_u32(v: u32) -> i32 {
    if v < 0x80000000 {
        v as i32
    } else {
        (v - 0x100000000) as i32
    }
}

/// The 32-bit wire value of a signed value (two's complement).
pub open spec fn u32_of_i32(v: i32) -> u32 {
    if v >= 0 {
        v as u32
    } else {
        (v + 0x100000000) as u32
    }
}

/// Reading two little-endian bytes back yields the value they were made of.
pub proof fn lemma_u16_le_round_trip(v: u16)
    ensures
        u16_le_val(le16(v)[0], le16(v)[1]) == v,
{
}

/// Reading four little-endian bytes back yields the value they were made of.
pub proof fn lemma_u32_le_round_trip(v: u32)
    ensures
        u32_le_val(le32(v)[0], le32(v)[1], le32(v)[2], le32(v)[3]) == v,
{
    assert(v as int == v % 0x100 + 0x100 * ((v / 0x100) % 0x100) + 0x10000 * ((v / 0x10000) % 0x100)
        + 0x1000000 * (v / 0x1000000)) by (bit_vector);
}

/// Reading two big-endian bytes back yields the value they were made of.
pub proof fn lemma_u16_be_round_trip(v: u16)
    ensures
        u16_be_val(be16(v)[0], be16(v)[1]) == v,
{
}

/// Reading four big-endian bytes back yields the value they were made of.
pub proof fn lemma_u32_be_round_trip(v: u32)
    ensures
        u32_be_val(be32(v)[0], be32(v)[1], be32(v)[2], be32(v)[3]) == v,
{
    assert(v as int == v % 0x100 + 0x100 * ((v / 0x100) % 0x100) + 0x10000 * ((v / 0x10000) % 0x100)
        + 0x1000000 * (v / 0x1000000)) by (bit_vector);
}

/// The signed reading of the wire form of a signed byte is the value itself.
pub proof fn lemma_i8_round_trip(v: i8)
    ensures
        i8_of_u8(u8_of_i8(v)) == v,
{
}

/// The signed reading of the wire form of a signed 16-bit value is the value itself.
pub proof fn lemma_i16_round_trip(v: i16)
    ensures
        i16_of_u16(u16_of_i16(v)) == v,
{
}

/// The signed reading of the wire form of a signed 32-bit value is the value itself.
pub proof fn lemma_i32_round_trip(v: i32)
    ensures
        i32_of_u32(u32_of_i32(v)) == v,
{
}

/// The signed reading of a wire byte, as executable code.
pub fn i8_from_wire(v: u8) -> (r: i8)
    ensures
        r == i8_of_u8(v),
{
    if v < 0x80 {
        v as i8
    } else {
        ((v as i32) - 0x100) as i8
    }
}

/// The signed reading of a 16-bit wire value, as executable code.
pub fn i16_from_wire(v: u16) -> (r: i16)
    ensures
        r == i16_of_u16(v),
{
    if v < 0x8000 {
        v as i16
    } else {
        ((v as i32) - 0x10000) as i16
    }
}

/// The signed reading of a 32-bit wire value, as executable code.
pub fn i32_from_wire(v: u32) -> (r: i32)
    ensures
        r == i32_of_u32(v),
{
    if v < 0x80000000 {
        v as i32
    } else {
        ((v as i64) - 0x100000000) as i32
    }
}

} // verus!
