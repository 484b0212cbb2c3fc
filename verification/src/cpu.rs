//! The architectural state of the simulated hart and its execution engine.

pub mod base;
pub mod csrs;
pub mod instruction_sets;
pub mod registers;
pub mod rv32i;
