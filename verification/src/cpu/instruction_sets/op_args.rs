//! A decoded view of one instruction word: convenience accessors for every
//! field and immediate shape.

use vstd::prelude::*;

use crate::instruction::decoder;
use crate::instruction::decoder::{
    spec_b_imm, spec_funct3, spec_funct7, spec_i_imm, spec_j_imm, spec_rd, spec_rs1, spec_rs2,
    spec_s_imm, spec_u_imm,
};

verus! {

/// One instruction word with its decoders at hand.
pub struct OpArgs {
    /// The raw 32-bit instruction word.
    pub instruction: u32,
}

impl OpArgs {
    /// The sign-extended I-type immediate.
    pub fn i_imm(&self) -> (r: i32)
        ensures
            r == spec_i_imm(self.instruction),
    {
        decoder::i_type_immediate_32(self.instruction)
    }

    /// The sign-extended B-type immediate.
    pub fn b_imm(&self) -> (r: i32)
        ensures
            r == spec_b_imm(self.instruction),
    {
        decoder::b_type_immediate_32(self.instruction)
    }

    /// The sign-extended S-type immediate.
    pub fn s_imm(&self) -> (r: i32)
        ensures
            r == spec_s_imm(self.instruction),
    {
        decoder::s_type_immediate_32(self.instruction)
    }

    /// The U-type immediate: the word's upper 20 bits, low 12 bits zero.
    pub fn u_imm(&self) -> (r: i32)
        ensures
            r == spec_u_imm(self.instruction),
    {
        decoder::u_type_immediate(self.instruction)
    }

    /// The sign-extended J-type immediate.
    pub fn j_imm(&self) -> (r: i32)
        ensures
            r == spec_j_imm(self.instruction),
    {
        decoder::j_type_immediate_32(self.instruction)
    }

    /// The destination register index.
    pub fn rd(&self) -> (r: usize)
        ensures
            r == spec_rd(self.instruction) as usize,
            r < 32,
    {
        proof {
            decoder::lemma_field_bounds(self.instruction);
        }
        decoder::rd(self.instruction) as usize
    }

    /// The first source register index.
    pub fn rs1(&self) -> (r: usize)
        ensures
            r == spec_rs1(self.instruction) as usize,
            r < 32,
    {
        proof {
            decoder::lemma_field_bounds(self.instruction);
        }
        decoder::rs1(self.instruction) as usize
    }

    /// The second source register index.
    pub fn rs2(&self) -> (r: usize)
        ensures
            r == spec_rs2(self.instruction) as usize,
            r < 32,
    {
        proof {
            decoder::lemma_field_bounds(self.instruction);
        }
        decoder::rs2(self.instruction) as usize
    }

    /// The funct3 field.
    pub fn funct3(&self) -> (r: u8)
        ensures
            r == spec_funct3(self.instruction),
    {
        decoder::funct3(self.instruction)
    }

    /// The funct7 field.
    pub fn funct7(&self) -> (r: u8)
        ensures
            r == spec_funct7(self.instruction),
    {
        decoder::funct7(self.instruction)
    }
}

} // verus!
