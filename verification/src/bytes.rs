//! Little-endian field decoding.
//!
//! The binary stream encodings store every multi-byte field little-endian.
//! Each reader here is specified against a direct arithmetic definition of
//! the encoded value, so a record parser can state exactly which bytes make
//! up each of its fields.

use vstd::prelude::*;

verus! {

/// The value of the two little-endian bytes of `b` at `off`.
pub open spec fn le_u16(b: Seq<u8>, off: int) -> int
    recommends
        0 <= off,
        off + 2 <= b.len(),
{
    b[off] as int + 0x100 * (b[off + 1] as int)
}

/// The value of the four little-endian bytes of `b` at `off`.
pub open spec fn le_u32(b: Seq<u8>, off: int) -> int
    recommends
        0 <= off,
        off + 4 <= b.len(),
{
    le_u16(b, off) + 0x1_0000 * le_u16(b, off + 2)
}

/// The value of the eight little-endian bytes of `b` at `off`.
pub open spec fn le_u64(b: Seq<u8>, off: int) -> int
    recommends
        0 <= off,
        off + 8 <= b.len(),
{
    le_u32(b, off) + 0x1_0000_0000 * le_u32(b, off + 4)
}

/// The eight little-endian bytes of `b` at `off` read as a two's-complement
/// signed value.
pub open spec fn le_i64(b: Seq<u8>, off: int) -> int
    recommends
        0 <= off,
        off + 8 <= b.len(),
{
    if le_u64(b, off) >= 0x8000_0000_0000_0000 {
        le_u64(b, off) - 0x1_0000_0000_0000_0000
    } else {
        le_u64(b, off)
    }
}

/// Reads the little-endian 16-bit field at `offset`.
pub fn le_u16_at(bytes: &[u8], offset: usize) -> (r: u16)
    requires
        offset + 2 <= bytes.len(),
    ensures
        r as int == le_u16(bytes@, offset as int),
{
    let lo = bytes[offset] as u16;
    let hi = bytes[offset + 1] as u16;
    lo + 0x100 * hi
}

/// Reads the little-endian 32-bit field at `offset`.
pub fn le_u32_at(bytes: &[u8], offset: usize) -> (r: u32)
    requires
        offset + 4 <= bytes.len(),
    ensures
        r as int == le_u32(bytes@, offset as int),
{
    let lo = le_u16_at(bytes, offset) as u32;
    let hi = le_u16_at(bytes, offset + 2) as u32;
    lo + 0x1_0000 * hi
}

/// Reads the little-endian 64-bit field at `offset`.
pub fn le_u64_at(bytes: &[u8], offset: usize) -> (r: u64)
    requires
        offset + 8 <= bytes.len(),
    ensures
        r as int == le_u64(bytes@, offset as int),
{
    let lo = le_u32_at(bytes, offset) as u64;
    let hi = le_u32_at(bytes, offset + 4) as u64;
    lo + 0x1_0000_0000 * hi
}

/// Reads the little-endian 64-bit field at `offset` as a signed value.
pub fn le_i64_at(bytes: &[u8], offset: usize) -> (r: i64)
    requires
        offset + 8 <= bytes.len(),
    ensures
        r as int == le_i64(bytes@, offset as int),
{
    let u = le_u64_at(bytes, offset);
    if u >= 0x8000_0000_0000_0000 {
        -((0xFFFF_FFFF_FFFF_FFFFu64 - u) as i64) - 1
    } else {
        u as i64
    }
}

/// Copies the bytes of `bytes` from `start` up to `end` into a vector.
pub fn copy_range(bytes: &[u8], start: usize, end: usize) -> (r: Vec<u8>)
    requires
        start <= end,
        end <= bytes.len(),
    ensures
        r@ == bytes@.subrange(start as int, end as int),
{
    let mut r: Vec<u8> = Vec::new();
    let mut i = start;
    proof {
        assert(r@ =~= bytes@.subrange(start as int, start as int));
    }
    while i < end
        invariant
            start <= i <= end,
            end <= bytes.len(),
            r@ == bytes@.subrange(start as int, i as int),
        decreases end - i,
    {
        r.push(bytes[i]);
        i = i + 1;
        proof {
            assert(r@ =~= bytes@.subrange(start as int, i as int));
        }
    }
    r
}

} // verus!
