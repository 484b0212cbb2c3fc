//! Small helpers shared by the decoder and the encoder: masked field
//! extraction and the opcode layout of the base instruction map.

use vstd::prelude::*;

verus! {

/// Mask selecting the sign bit of a 32-bit instruction word.
pub const SIGN_BIT: u32 = 0x8000_0000;

/// Mask selecting the lowest 11 bits.
pub const C_11_BITS: u32 = 0x7FF;

/// Mask selecting the lowest 10 bits.
pub const C_10_BITS: u32 = 0x3FF;

/// Mask selecting the lowest 8 bits.
pub const C_8_BITS: u32 = 0xFF;

/// Mask selecting the lowest 7 bits.
pub const C_7_BITS: u32 = 0x7F;

/// Mask selecting the lowest 6 bits.
pub const C_6_BITS: u32 = 0x3F;

/// Mask selecting the lowest 5 bits.
pub const C_5_BITS: u32 = 0x1F;

/// Mask selecting the lowest 4 bits.
pub const C_4_BITS: u32 = 0xF;

/// Mask selecting the lowest 3 bits.
pub const C_3_BITS: u32 = 0x7;

/// The bits of `value` selected by `mask` after shifting right by `shift`.
pub open spec fn spec_extract(value: u32, shift: usize, mask: u32) -> u32 {
    (value >> shift) & mask
}

/// Extract the bits of `value` selected by `mask` after shifting right by
/// `shift`.
pub fn extract(value: u32, shift: usize, mask: u32) -> (r: u32)
    requires
        shift < 32,
    ensures
        r == spec_extract(value, shift, mask),
{
    (value >> shift) & mask
}

/// The 7-bit opcode value formed from a 3-bit column and a 2-bit row of the
/// base instruction map, with the two low bits set (32-bit encoding).
pub open spec fn spec_construct_opcode(col: u8, row: u8) -> u8 {
    ((col & 0x7) << 2) | ((row & 0x3) << 5) | 0x3
}

/// Construct an opcode from a 3-bit column and a 2-bit row of the base
/// instruction map.
pub fn construct_opcode(col: u8, row: u8) -> (r: u8)
    ensures
        r == spec_construct_opcode(col, row),
{
    let col_shifted = (col & 0x7) << 2u32;
    let row_shifted = (row & 0x3) << 5u32;
    col_shifted | row_shifted | 0x3
}

} // verus!
