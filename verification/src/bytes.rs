//! Little-endian packing of bytes into wider integers, and back.

use vstd::prelude::*;

verus! {

/// The unsigned 16-bit value whose little-endian bytes are `b0`, `b1`.
pub open spec fn le_u16(b0: u8, b1: u8) -> int {
    b0 as int + 256 * (b1 as int)
}

/// The unsigned 32-bit value whose little-endian bytes are `b0` .. `b3`.
pub open spec fn le_u32(b0: u8, b1: u8, b2: u8, b3: u8) -> int {
    b0 as int + 256 * (b1 as int) + 65536 * (b2 as int) + 16777216 * (b3 as int)
}

/// Two's-complement reading of an unsigned 8-bit pattern.
pub open spec fn signed8(x: int) -> int {
    if x >= 128 {
        x - 256
    } else {
        x
    }
}

/// Two's-complement reading of an unsigned 16-bit pattern.
pub open spec fn signed16(x: int) -> int {
    if x >= 32768 {
        x - 65536
    } else {
        x
    }
}

/// Two's-complement reading of an unsigned 32-bit pattern.
pub open spec fn signed32(x: int) -> int {
    if x >= 2147483648 {
        x - 4294967296
    } else {
        x
    }
}

pub fn build_u16_from_u8s(v0: u8, v1: u8) -> (r: u16)
    ensures
        r == le_u16(v0, v1),
{
    let lo: u16 = v0 as u16;
    let hi: u16 = v1 as u16;
    assert(((hi << 8) | lo) == lo + 256 * hi) by (bit_vector)
        requires
            lo < 256,
            hi < 256,
    ;
    (hi << 8) | lo
}

pub fn build_i16_from_u8s(v0: u8, v1: u8) -> (r: i16)
    ensures
        r == signed16(le_u16(v0, v1)),
{
    let u: u16 = build_u16_from_u8s(v0, v1);
    assert((u as i16) == (if u >= 32768 { u - 65536 } else { u as int })) by (bit_vector);
    #[verifier::truncate]
    (u as i16)
}

pub fn build_u32_from_u8s(v0: u8, v1: u8, v2: u8, v3: u8) -> (r: u32)
    ensures
        r == le_u32(v0, v1, v2, v3),
{
    let a: u32 = v0 as u32;
    let b: u32 = v1 as u32;
    let c: u32 = v2 as u32;
    let d: u32 = v3 as u32;
    assert(((d << 24) | (c << 16) | (b << 8) | a) == a + 256 * b + 65536 * c + 16777216 * d)
        by (bit_vector)
        requires
            a < 256,
            b < 256,
            c < 256,
            d < 256,
    ;
    (d << 24) | (c << 16) | (b << 8) | a
}

pub fn decompose_u16_to_u8s(value: u16) -> (r: (u8, u8))
    ensures
        r.0 == value % 256,
        r.1 == value / 256,
        le_u16(r.0, r.1) == value,
{
    assert((value & 0x00FF) == value % 256) by (bit_vector);
    assert(((value & 0xFF00) >> 8) == value / 256) by (bit_vector);
    let v0: u8 = (value & 0x00FF) as u8;
    let v1: u8 = ((value & 0xFF00) >> 8) as u8;
    (v0, v1)
}

pub fn decompose_i16_to_u8s(value: i16) -> (r: (u8, u8))
    ensures
        r.0 == (value as int) % 256,
        r.1 == ((value as int) / 256) % 256,
        signed16(le_u16(r.0, r.1)) == value,
{
    assert((value as u16) == (if value < 0 { value + 65536 } else { value as int }))
        by (bit_vector);
    decompose_u16_to_u8s(
        #[verifier::truncate]
        (value as u16),
    )
}

pub fn decompose_u32_to_u8s(value: u32) -> (r: (u8, u8, u8, u8))
    ensures
        r.0 == value % 256,
        r.1 == (value / 256) % 256,
        r.2 == (value / 65536) % 256,
        r.3 == value / 16777216,
        le_u32(r.0, r.1, r.2, r.3) == value,
{
    assert((value & 0x000000FF) == value % 256) by (bit_vector);
    assert(((value & 0x0000FF00) >> 8) == (value / 256) % 256) by (bit_vector);
    assert(((value & 0x00FF0000) >> 16) == (value / 65536) % 256) by (bit_vector);
    assert(((value & 0xFF000000) >> 24) == value / 16777216) by (bit_vector);
    let v0: u8 = (value & 0x000000FF) as u8;
    let v1: u8 = ((value & 0x0000FF00) >> 8) as u8;
    let v2: u8 = ((value & 0x00FF0000) >> 16) as u8;
    let v3: u8 = ((value & 0xFF000000) >> 24) as u8;
    (v0, v1, v2, v3)
}

} // verus!
