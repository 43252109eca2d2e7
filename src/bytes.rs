//! Little-endian integers and bit flags read out of byte sequences.

use byteorder::{ByteOrder, LittleEndian};
use vstd::prelude::*;

verus! {

/// The unsigned value of two bytes, least significant first.
pub open spec fn u16_le(b: Seq<u8>) -> int {
    b[0] + 256 * b[1]
}

/// The unsigned value of three bytes, least significant first.
pub open spec fn u24_le(b: Seq<u8>) -> int {
    b[0] + 256 * b[1] + 65536 * b[2]
}

/// The unsigned value of four bytes, least significant first.
pub open spec fn u32_le(b: Seq<u8>) -> int {
    b[0] + 256 * b[1] + 65536 * b[2] + 16777216 * b[3]
}

/// The two's complement reading of a 16-bit unsigned value.
pub open spec fn signed16(v: int) -> int {
    if v < 0x8000 { v } else { v - 0x10000 }
}

/// The two's complement reading of a 32-bit unsigned value.
pub open spec fn signed32(v: int) -> int {
    if v < 0x8000_0000 { v } else { v - 0x1_0000_0000 }
}

/// Relies on `byteorder::LittleEndian::read_u16`: the first two bytes, least
/// significant first (it panics on fewer than two).
#[verifier::external_body]
pub(crate) fn read_u16(b: &[u8]) -> (r: u16)
    requires
        b@.len() >= 2,
    ensures
        r == u16_le(b@),
{
    LittleEndian::read_u16(b)
}

/// Relies on `byteorder::LittleEndian::read_u24`: the first three bytes, least
/// significant first (it panics on fewer than three).
#[verifier::external_body]
pub(crate) fn read_u24(b: &[u8]) -> (r: u32)
    requires
        b@.len() >= 3,
    ensures
        r == u24_le(b@),
{
    LittleEndian::read_u24(b)
}

/// Relies on `byteorder::LittleEndian::read_u32`: the first four bytes, least
/// significant first (it panics on fewer than four).
#[verifier::external_body]
pub(crate) fn read_u32(b: &[u8]) -> (r: u32)
    requires
        b@.len() >= 4,
    ensures
        r == u32_le(b@),
{
    LittleEndian::read_u32(b)
}

/// The first two bytes as a signed little-endian integer.
pub fn read_i16(b: &[u8]) -> (r: i16)
    requires
        b@.len() >= 2,
    ensures
        r as int == signed16(u16_le(b@)),
{
    let v = read_u16(b);
    let r = v as i16;
    assert(r as int == signed16(v as int)) by (bit_vector)
        requires
            r == v as i16,
    ;
    r
}

/// The first four bytes as a signed little-endian integer.
pub fn read_i32(b: &[u8]) -> (r: i32)
    requires
        b@.len() >= 4,
    ensures
        r as int == signed32(u32_le(b@)),
{
    let v = read_u32(b);
    let r = v as i32;
    assert(r as int == signed32(v as int)) by (bit_vector)
        requires
            r == v as i32,
    ;
    r
}

/// Bit `i` of the bytes `b`, counting from the least significant bit of `b[0]`.
pub open spec fn flag(b: Seq<u8>, i: int) -> bool {
    (b[i / 8] >> ((i % 8) as u8)) & 1u8 == 1u8
}

/// Bit `i` of `byte`.
pub fn bit(byte: u8, i: u8) -> (r: bool)
    requires
        i < 8,
    ensures
        r == ((byte >> i) & 1u8 == 1u8),
{
    (byte >> i) & 1u8 == 1u8
}

/// 1 for `true`, 0 for `false`.
pub fn bit_value(b: bool) -> (r: u8)
    ensures
        r == (if b { 1u8 } else { 0u8 }),
{
    if b {
        1
    } else {
        0
    }
}

/// The byte holding eight one-bit values, the first in the least significant bit.
pub open spec fn pack_bits(x0: u8, x1: u8, x2: u8, x3: u8, x4: u8, x5: u8, x6: u8, x7: u8) -> u8 {
    x0 | (x1 << 1u8) | (x2 << 2u8) | (x3 << 3u8) | (x4 << 4u8) | (x5 << 5u8) | (x6 << 6u8) | (x7
        << 7u8)
}

/// Each of eight one-bit values comes back out of the byte they are packed into.
pub proof fn lemma_pack_bits(x0: u8, x1: u8, x2: u8, x3: u8, x4: u8, x5: u8, x6: u8, x7: u8)
    requires
        x0 <= 1 && x1 <= 1 && x2 <= 1 && x3 <= 1 && x4 <= 1 && x5 <= 1 && x6 <= 1 && x7 <= 1,
    ensures
        ({
            let v = x0 | (x1 << 1u8) | (x2 << 2u8) | (x3 << 3u8) | (x4 << 4u8) | (x5 << 5u8) | (x6
                << 6u8) | (x7 << 7u8);
            &&& (v >> 0u8) & 1u8 == x0
            &&& (v >> 1u8) & 1u8 == x1
            &&& (v >> 2u8) & 1u8 == x2
            &&& (v >> 3u8) & 1u8 == x3
            &&& (v >> 4u8) & 1u8 == x4
            &&& (v >> 5u8) & 1u8 == x5
            &&& (v >> 6u8) & 1u8 == x6
            &&& (v >> 7u8) & 1u8 == x7
        }),
{
    assert({
        let v = x0 | (x1 << 1u8) | (x2 << 2u8) | (x3 << 3u8) | (x4 << 4u8) | (x5 << 5u8) | (x6
            << 6u8) | (x7 << 7u8);
        &&& (v >> 0u8) & 1u8 == x0
        &&& (v >> 1u8) & 1u8 == x1
        &&& (v >> 2u8) & 1u8 == x2
        &&& (v >> 3u8) & 1u8 == x3
        &&& (v >> 4u8) & 1u8 == x4
        &&& (v >> 5u8) & 1u8 == x5
        &&& (v >> 6u8) & 1u8 == x6
        &&& (v >> 7u8) & 1u8 == x7
    }) by (bit_vector)
        requires
            x0 <= 1 && x1 <= 1 && x2 <= 1 && x3 <= 1 && x4 <= 1 && x5 <= 1 && x6 <= 1 && x7 <= 1,
    ;
}

} // verus!
