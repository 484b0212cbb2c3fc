//! Field extractors and immediate decoders for 32-bit RV32I instruction
//! words.
//!
//! The five immediate shapes (I, S, B, U, J) are decoded to sign-extended
//! `i32` values.  The lemmas at the end of the file characterise the decoded
//! immediates as plain integers: each one equals its raw bit field minus a
//! power of two when the sign bit is set, and therefore lies in the signed
//! range of its width.

use vstd::prelude::*;

use super::util::{
    extract, spec_extract, C_10_BITS, C_11_BITS, C_3_BITS, C_4_BITS, C_5_BITS, C_6_BITS, C_7_BITS,
    C_8_BITS, SIGN_BIT,
};

verus! {

/// The opcode field: bits [6:0].
pub open spec fn spec_opcode(instruction: u32) -> u8 {
    spec_extract(instruction, 0, C_7_BITS) as u8
}

/// The destination register field: bits [11:7].
pub open spec fn spec_rd(instruction: u32) -> u8 {
    spec_extract(instruction, 7, C_5_BITS) as u8
}

/// The first source register field: bits [19:15].
pub open spec fn spec_rs1(instruction: u32) -> u8 {
    spec_extract(instruction, 15, C_5_BITS) as u8
}

/// The second source register field: bits [24:20].
pub open spec fn spec_rs2(instruction: u32) -> u8 {
    spec_extract(instruction, 20, C_5_BITS) as u8
}

/// The funct3 field: bits [14:12].
pub open spec fn spec_funct3(instruction: u32) -> u8 {
    spec_extract(instruction, 12, C_3_BITS) as u8
}

/// The funct7 field: bits [31:25].
pub open spec fn spec_funct7(instruction: u32) -> u8 {
    spec_extract(instruction, 25, C_7_BITS) as u8
}

/// Every instruction field fits its width: registers are below 32, funct3
/// below 8, opcode and funct7 below 128, and the 12-bit CSR/immediate zone
/// `instruction >> 20` below 4096.
pub proof fn lemma_field_bounds(instruction: u32)
    ensures
        spec_extract(instruction, 0, C_7_BITS) < 128,
        spec_extract(instruction, 7, C_5_BITS) < 32,
        spec_extract(instruction, 15, C_5_BITS) < 32,
        spec_extract(instruction, 20, C_5_BITS) < 32,
        spec_extract(instruction, 12, C_3_BITS) < 8,
        spec_extract(instruction, 25, C_7_BITS) < 128,
        instruction >> 20 < 4096,
        spec_opcode(instruction) == spec_extract(instruction, 0, C_7_BITS),
        spec_rd(instruction) == spec_extract(instruction, 7, C_5_BITS),
        spec_rs1(instruction) == spec_extract(instruction, 15, C_5_BITS),
        spec_rs2(instruction) == spec_extract(instruction, 20, C_5_BITS),
        spec_funct3(instruction) == spec_extract(instruction, 12, C_3_BITS),
        spec_funct7(instruction) == spec_extract(instruction, 25, C_7_BITS),
{
    let i = instruction;
    assert((i >> 0) & 0x7F < 128 && (i >> 7) & 0x1F < 32 && (i >> 15) & 0x1F < 32 && (i >> 20)
        & 0x1F < 32 && (i >> 12) & 0x7 < 8 && (i >> 25) & 0x7F < 128 && i >> 20 < 4096)
        by (bit_vector);
}

/// Extract the opcode (the lowest 7 bits of the instruction word).
pub fn opcode(instruction: u32) -> (r: u8)
    ensures
        r == spec_opcode(instruction),
{
    extract(instruction, 0, C_7_BITS) as u8
}

/// Extract the `rd` part of the instruction (bits 7 to 11 inclusive).
pub fn rd(instruction: u32) -> (r: u8)
    ensures
        r == spec_rd(instruction),
{
    extract(instruction, 7, C_5_BITS) as u8
}

/// Extract the `rs1` (register source 1) part of the instruction (bits 15 to
/// 19 inclusive).
pub fn rs1(instruction: u32) -> (r: u8)
    ensures
        r == spec_rs1(instruction),
{
    extract(instruction, 15, C_5_BITS) as u8
}

/// Extract the `rs2` (register source 2) part of the instruction (bits 20 to
/// 24 inclusive).
pub fn rs2(instruction: u32) -> (r: u8)
    ensures
        r == spec_rs2(instruction),
{
    extract(instruction, 20, C_5_BITS) as u8
}

/// Extract the `funct3` part of the instruction (bits 12 to 14 inclusive).
pub fn funct3(instruction: u32) -> (r: u8)
    ensures
        r == spec_funct3(instruction),
{
    extract(instruction, 12, C_3_BITS) as u8
}

/// Extract the `funct7` part of the instruction (bits 25 to 31 inclusive).
pub fn funct7(instruction: u32) -> (r: u8)
    ensures
        r == spec_funct7(instruction),
{
    extract(instruction, 25, C_7_BITS) as u8
}

/// Sign extension of `raw_value & ((1 << bits) - 1)`: the bits above `bits`
/// are filled with ones when `sign_bit` is set and zeros otherwise, and the
/// result is reinterpreted as a two's-complement `i32`.
pub open spec fn spec_sign_extend_32(raw_value: u32, bits: usize, sign_bit: bool) -> i32
    recommends
        bits < 32,
{
    let bit_mask = ((1u32 << bits) - 1) as u32;
    let sign_mask = !bit_mask;
    let extension = if sign_bit {
        sign_mask
    } else {
        0u32
    };
    ((raw_value & bit_mask) | extension) as i32
}

/// Sign extend an input to 32 bits given a sign bit and the unsigned portion.
pub fn sign_extend_32(raw_value: u32, bits: usize, sign_bit: bool) -> (r: i32)
    requires
        bits < 32,
    ensures
        r == spec_sign_extend_32(raw_value, bits, sign_bit),
{
    proof {
        assert(1u32 << bits >= 1) by (bit_vector)
            requires
                bits < 32,
        ;
    }
    // This mask is all 1s for the bits in raw_value's range.
    let bit_mask: u32 = (1u32 << bits) - 1;
    // This mask is all 1s for the bits from `bits` to 31 and 0 below.
    let sign_mask = !bit_mask;
    // The extension is all 1s if the sign bit is set and all 0s otherwise.
    let extension = if sign_bit {
        sign_mask
    } else {
        0
    };
    ((raw_value & bit_mask) | extension) as i32
}

/// The U-type immediate: bits [31:12] of the word, low 12 bits zero.  The
/// sign bit is already in place, so the masked word is reinterpreted as is.
pub open spec fn spec_u_imm(instruction: u32) -> i32 {
    (instruction & 0xFFFF_F000) as i32
}

/// Extract a sign extended U-type immediate (packed so that
/// `instruction[31:12] = immediate[31:12]`, with the lowest bits zero).
pub fn u_type_immediate(instruction: u32) -> (r: i32)
    ensures
        r == spec_u_imm(instruction),
{
    (instruction & 0xFFFF_F000) as i32
}

/// The I-type immediate: bits [31:20], sign extended from 12 bits.
pub open spec fn spec_i_imm(instruction: u32) -> i32 {
    spec_sign_extend_32(
        spec_extract(instruction, 20, C_11_BITS),
        11,
        spec_extract(instruction, 0, SIGN_BIT) != 0,
    )
}

/// I-type immediates are sign extended 12-bit immediates packed into the last
/// 12 bits of the 32-bit instruction.
pub fn i_type_immediate_32(instruction: u32) -> (r: i32)
    ensures
        r == spec_i_imm(instruction),
{
    // The sign bit is already at bit 31, so extract it with a mask; the
    // other 11 bits are shifted down.
    let sign_bit = extract(instruction, 0, SIGN_BIT) != 0;
    let raw_value = extract(instruction, 20, C_11_BITS);
    sign_extend_32(raw_value, 11, sign_bit)
}

/// The S-type immediate: bits [31:25] and [11:7], sign extended from 12 bits.
pub open spec fn spec_s_imm(instruction: u32) -> i32 {
    spec_sign_extend_32(
        (spec_extract(instruction, 25, C_6_BITS) << 5) | spec_extract(instruction, 7, C_5_BITS),
        11,
        spec_extract(instruction, 0, SIGN_BIT) != 0,
    )
}

/// S-type immediates are sign extended 12-bit immediates packed into bits
/// [11:7] for `imm[4:0]` and bits [31:25] for `imm[11:5]`.
pub fn s_type_immediate_32(instruction: u32) -> (r: i32)
    ensures
        r == spec_s_imm(instruction),
{
    let sign_bit = extract(instruction, 0, SIGN_BIT) != 0;
    let upper_6_bits = extract(instruction, 25, C_6_BITS) << 5u32;
    let lower_5_bits = extract(instruction, 7, C_5_BITS);
    sign_extend_32(upper_6_bits | lower_5_bits, 11, sign_bit)
}

/// The B-type immediate: a 13-bit branch offset with implicit zero LSB,
/// scattered over bits 31, 7, [30:25] and [11:8].
pub open spec fn spec_b_imm(instruction: u32) -> i32 {
    spec_sign_extend_32(
        (spec_extract(instruction, 7, 1) << 11) | (spec_extract(instruction, 25, C_6_BITS) << 5) | (
        spec_extract(instruction, 8, C_4_BITS) << 1),
        12,
        instruction & SIGN_BIT != 0,
    )
}

/// B-type immediates are sign extended 13-bit immediates packed into bits
/// [11:8] for `imm[4:1]`, bits [30:25] for `imm[10:5]`, bit 7 for `imm[11]`
/// and bit 31 for `imm[12]`; `imm[0]` is always zero.
pub fn b_type_immediate_32(instruction: u32) -> (r: i32)
    ensures
        r == spec_b_imm(instruction),
{
    let sign_bit = instruction & SIGN_BIT != 0;
    let bit_11 = extract(instruction, 7, 1) << 11u32;
    let bits_10_to_5 = extract(instruction, 25, C_6_BITS) << 5u32;
    let bits_4_to_1 = extract(instruction, 8, C_4_BITS) << 1u32;
    sign_extend_32(bit_11 | bits_10_to_5 | bits_4_to_1, 12, sign_bit)
}

/// The J-type immediate: a 21-bit jump offset with implicit zero LSB,
/// scattered over bits 31, [19:12], 20 and [30:21].
pub open spec fn spec_j_imm(instruction: u32) -> i32 {
    spec_sign_extend_32(
        (spec_extract(instruction, 12, C_8_BITS) << 12) | (spec_extract(instruction, 20, 1) << 11)
            | (spec_extract(instruction, 21, C_10_BITS) << 1),
        20,
        instruction & SIGN_BIT != 0,
    )
}

/// J-type immediates pack the upper 20 bits of a 21-bit sign extended offset
/// in the order bits [30:21] for `imm[10:1]`, bit 20 for `imm[11]`, bits
/// [19:12] for `imm[19:12]` and bit 31 for `imm[20]` (the sign bit).
pub fn j_type_immediate_32(instruction: u32) -> (r: i32)
    ensures
        r == spec_j_imm(instruction),
{
    let sign_bit = instruction & SIGN_BIT != 0;
    let bit_11 = extract(instruction, 20, 1) << 11u32;
    let bits_10_to_1 = extract(instruction, 21, C_10_BITS) << 1u32;
    let bits_19_to_12 = extract(instruction, 12, C_8_BITS) << 12u32;
    sign_extend_32(bits_19_to_12 | bit_11 | bits_10_to_1, 20, sign_bit)
}

/// The I-type decoder sign-extends correctly: the result is the raw 12-bit
/// field minus 4096 when the field's sign bit (instruction bit 31) is set,
/// and therefore lies in [-2048, 2047].
pub proof fn lemma_i_imm_sign_extend(i: u32)
    ensures
        -2048 <= spec_i_imm(i) <= 2047,
        spec_i_imm(i) == (i >> 20) - (if i >> 31 == 1 {
            4096int
        } else {
            0int
        }),
{
    assert({
        let v = ((((i >> 20) & 0x7FF) & (((1u32 << 11) - 1) as u32)) | (if ((i >> 0) & 0x8000_0000)
            != 0 {
            !(((1u32 << 11) - 1) as u32)
        } else {
            0u32
        })) as i32;
        -2048 <= v <= 2047 && v == (i >> 20) - (if i >> 31 == 1 {
            4096int
        } else {
            0int
        })
    }) by (bit_vector);
}

/// The S-type decoder sign-extends correctly: the result lies in
/// [-2048, 2047] and equals its raw 12-bit field minus 4096 when negative.
pub proof fn lemma_s_imm_sign_extend(i: u32)
    ensures
        -2048 <= spec_s_imm(i) <= 2047,
        spec_s_imm(i) == (((i >> 25) << 5) | ((i >> 7) & 0x1F)) - (if i >> 31 == 1 {
            4096int
        } else {
            0int
        }),
{
    assert({
        let v = (((((i >> 25) & 0x3F) << 5) | ((i >> 7) & 0x1F)) & (((1u32 << 11) - 1) as u32) | (
        if ((i >> 0) & 0x8000_0000) != 0 {
            !(((1u32 << 11) - 1) as u32)
        } else {
            0u32
        })) as i32;
        -2048 <= v <= 2047 && v == (((i >> 25) << 5) | ((i >> 7) & 0x1F)) - (if i >> 31 == 1 {
            4096int
        } else {
            0int
        })
    }) by (bit_vector);
}

/// The B-type decoder sign-extends correctly: the result is even and lies in
/// [-4096, 4094].
pub proof fn lemma_b_imm_sign_extend(i: u32)
    ensures
        -4096 <= spec_b_imm(i) <= 4094,
        spec_b_imm(i) % 2 == 0,
{
    assert({
        let v = (((((i >> 7) & 1) << 11) | (((i >> 25) & 0x3F) << 5) | (((i >> 8) & 0xF) << 1)) & ((
        (1u32 << 12) - 1) as u32) | (if (i & 0x8000_0000) != 0 {
            !(((1u32 << 12) - 1) as u32)
        } else {
            0u32
        })) as i32;
        -4096 <= v <= 4094 && v % 2 == 0
    }) by (bit_vector);
}

/// The J-type decoder sign-extends correctly: the result is even and lies in
/// [-1048576, 1048574].
pub proof fn lemma_j_imm_sign_extend(i: u32)
    ensures
        -1048576 <= spec_j_imm(i) <= 1048574,
        spec_j_imm(i) % 2 == 0,
{
    assert({
        let v = (((((i >> 12) & 0xFF) << 12) | (((i >> 20) & 1) << 11) | (((i >> 21) & 0x3FF) << 1))
            & (((1u32 << 20) - 1) as u32) | (if (i & 0x8000_0000) != 0 {
            !(((1u32 << 20) - 1) as u32)
        } else {
            0u32
        })) as i32;
        -1048576 <= v <= 1048574 && v % 2 == 0
    }) by (bit_vector);
}

} // verus!
