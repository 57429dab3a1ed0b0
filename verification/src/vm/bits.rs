//! Cutting bytes and words out of a 64-bit value.

use vstd::prelude::*;

verus! {

/// Byte number `index` of `value`, counted from the least significant.
pub open spec fn byte_of(value: u64, index: u64) -> u8 {
    ((value >> (8 * index)) & 0xff) as u8
}

/// Computes [`byte_of`].
pub fn byte_at(value: u64, index: u64) -> (r: u8)
    requires
        index < 8,
    ensures
        r == byte_of(value, index),
{
    assert((value >> (8 * index)) & 0xff <= 0xff) by (bit_vector)
        requires
            index < 8,
    ;
    ((value >> (8 * index)) & 0xff) as u8
}

/// The low bytes of a value are those of its low word and low double word.
pub proof fn lemma_low_bytes(value: u64)
    ensures
        byte_of(value & 0xffff, 0) == byte_of(value, 0),
        byte_of(value & 0xffff, 1) == byte_of(value, 1),
        byte_of(value & 0xffff_ffff, 0) == byte_of(value, 0),
        byte_of(value & 0xffff_ffff, 1) == byte_of(value, 1),
        byte_of(value & 0xffff_ffff, 2) == byte_of(value, 2),
        byte_of(value & 0xffff_ffff, 3) == byte_of(value, 3),
{
    assert(((value & 0xffff) >> 0) & 0xff == (value >> 0) & 0xff && ((value & 0xffff) >> 8) & 0xff
        == (value >> 8) & 0xff && ((value & 0xffff_ffff) >> 0) & 0xff == (value >> 0) & 0xff && ((
    value & 0xffff_ffff) >> 8) & 0xff == (value >> 8) & 0xff && ((value & 0xffff_ffff) >> 16)
        & 0xff == (value >> 16) & 0xff && ((value & 0xffff_ffff) >> 24) & 0xff == (value >> 24)
        & 0xff) by (bit_vector);
}

/// Bits 0 to 7 of `cell`.
pub fn low_byte(cell: u64) -> (r: u8)
    ensures
        r == cell & 0xff,
{
    assert(cell & 0xff <= 0xff) by (bit_vector);
    (cell & 0xff) as u8
}

/// Bits 8 to 15 of `cell`.
pub fn high_byte(cell: u64) -> (r: u8)
    ensures
        r == (cell >> 8) & 0xff,
{
    assert((cell >> 8) & 0xff <= 0xff) by (bit_vector);
    ((cell >> 8) & 0xff) as u8
}

/// Bits 0 to 15 of `cell`.
pub fn low_word(cell: u64) -> (r: u16)
    ensures
        r == cell & 0xffff,
{
    assert(cell & 0xffff <= 0xffff) by (bit_vector);
    (cell & 0xffff) as u16
}

/// Bits 0 to 31 of `cell`.
pub fn low_dword(cell: u64) -> (r: u32)
    ensures
        r == cell & 0xffff_ffff,
{
    assert(cell & 0xffff_ffff <= 0xffff_ffff) by (bit_vector);
    (cell & 0xffff_ffff) as u32
}

} // verus!
