//! The execution engine: instruction semantics and the dispatch that applies
//! them to the architectural state.

pub mod op_args;
pub mod rv32i;
pub mod semantics;
