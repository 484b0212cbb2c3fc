//! The funct3 selector values of each opcode group.

use vstd::prelude::*;

verus! {

// OP-IMM group.
/// Add immediate.
pub const ADDI: u8 = 0b000;

/// Shift left logical by immediate.
pub const SLLI: u8 = 0b001;

/// Set if less than immediate (signed).
pub const SLTI: u8 = 0b010;

/// Set if less than immediate (unsigned).
pub const SLTIU: u8 = 0b011;

/// Exclusive or with immediate.
pub const XORI: u8 = 0b100;

/// Or with immediate.
pub const ORI: u8 = 0b110;

/// And with immediate.
pub const ANDI: u8 = 0b111;

/// Shift right by immediate; funct7 selects logical (0) or arithmetic
/// (0b0100000).
pub const SRLI_OR_SRAI: u8 = 0b101;

// OP group.  The values mirror the OP-IMM ones; the distinct names keep the
// use sites clear.
/// Add or subtract; funct7 selects add (0) or subtract (0b0100000).
pub const ADD_OR_SUB: u8 = 0b000;

/// Shift left logical.
pub const SLL: u8 = 0b001;

/// Set if less than (signed).
pub const SLT: u8 = 0b010;

/// Set if less than (unsigned).
pub const SLTU: u8 = 0b011;

/// Exclusive or.
pub const XOR: u8 = 0b100;

/// Or.
pub const OR: u8 = 0b110;

/// And.
pub const AND: u8 = 0b111;

/// Shift right; funct7 selects logical (0) or arithmetic (0b0100000).
pub const SRL_OR_SRA: u8 = 0b101;

// BRANCH group.
/// Branch if equal.
pub const BEQ: u8 = 0b000;

/// Branch if not equal.
pub const BNE: u8 = 0b001;

/// Branch if less than (signed).
pub const BLT: u8 = 0b100;

/// Branch if greater or equal (signed).
pub const BGE: u8 = 0b101;

/// Branch if less than (unsigned).
pub const BLTU: u8 = 0b110;

/// Branch if greater or equal (unsigned).
pub const BGEU: u8 = 0b111;

// LOAD group.
/// Load byte, sign extended.
pub const LB: u8 = 0b000;

/// Load halfword, sign extended.
pub const LH: u8 = 0b001;

/// Load word.
pub const LW: u8 = 0b010;

/// Load byte, zero extended.
pub const LBU: u8 = 0b100;

/// Load halfword, zero extended.
pub const LHU: u8 = 0b101;

// STORE group.
/// Store byte.
pub const SB: u8 = 0b000;

/// Store halfword.
pub const SH: u8 = 0b001;

/// Store word.
pub const SW: u8 = 0b010;

// SYSTEM group.
/// Environment call or breakpoint, selected by the immediate.
pub const ECALL_OR_EBREAK: u8 = 0b000;

/// CSR read and write.
pub const CSRRW: u8 = 0b001;

/// CSR read and set bits.
pub const CSRRS: u8 = 0b010;

/// CSR read and clear bits.
pub const CSRRC: u8 = 0b011;

/// CSR read and write, immediate source.
pub const CSRRWI: u8 = 0b101;

/// CSR read and set bits, immediate source.
pub const CSRRSI: u8 = 0b110;

/// CSR read and clear bits, immediate source.
pub const CSRRCI: u8 = 0b111;

} // verus!
