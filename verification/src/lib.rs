//! A single-hart RV32I instruction-set simulator.
//!
//! The crate is organised around three subsystems: the bit-level instruction
//! codec (`instruction`), the architectural state (`cpu` and `memory`), and
//! the execution engine (`cpu::instruction_sets`).  Every public operation
//! carries a contract; the execution engine is specified against a small
//! mathematical model of the machine state.

pub mod cpu;
pub mod instruction;
pub mod memory;
pub mod util;
