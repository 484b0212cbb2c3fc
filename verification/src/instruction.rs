//! The RV32I instruction codec: field extraction, immediate decoding, and
//! instruction encoding.

pub mod decoder;
pub mod encoder;
pub mod funct3;
pub mod opcodes;
pub mod r32_instruction_table;
pub mod util;
