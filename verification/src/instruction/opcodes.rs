//! The 7-bit opcode values of the RV32I base instruction set.  Each is the
//! value `construct_opcode(col, row)` builds from its column and row in the
//! base instruction map.

use vstd::prelude::*;

verus! {

/// Register-register ALU operations (column 0b100, row 0b01).
pub const OP: u8 = 0x33;

/// Register-immediate ALU operations (column 0b100, row 0b00).
pub const OP_IMM: u8 = 0x13;

/// Jump and link (column 0b011, row 0b11).
pub const JAL: u8 = 0x6F;

/// Indirect jump and link (column 0b001, row 0b11).
pub const JALR: u8 = 0x67;

/// Load upper immediate (column 0b101, row 0b01).
pub const LUI: u8 = 0x37;

/// Add upper immediate to PC (column 0b101, row 0b00).
pub const AUIPC: u8 = 0x17;

/// Conditional branches (column 0b000, row 0b11).
pub const BRANCH: u8 = 0x63;

/// Loads (column 0b000, row 0b00).
pub const LOAD: u8 = 0x03;

/// Stores (column 0b000, row 0b01).
pub const STORE: u8 = 0x23;

/// Fences (column 0b011, row 0b00).
pub const FENCE: u8 = 0x0F;

/// Environment calls, breakpoints and CSR access (column 0b100, row 0b11).
pub const SYSTEM: u8 = 0x73;

} // verus!
