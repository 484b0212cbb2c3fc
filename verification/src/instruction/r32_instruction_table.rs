//! A reduced dispatch table for the base integer instructions without the
//! SYSTEM group: any SYSTEM instruction traps as an illegal opcode, and no
//! environment-call hook is needed.

use vstd::prelude::*;

use crate::cpu::instruction_sets::rv32i::{arch_view, dispatch_and_count, CpuState};
use crate::cpu::instruction_sets::semantics::{table_step_behavior, Trap};
use crate::memory::Memory;
use super::{decoder, opcodes};

verus! {

/// The reduced instruction table: a stateless dispatcher that knows every
/// base instruction except the SYSTEM group.
pub struct InstructionTable {}

impl InstructionTable {
    /// Create the table.
    pub fn new() -> (r: Self)
        ensures
            r == (InstructionTable {  }),
    {
        InstructionTable {  }
    }

    /// Execute one instruction word: sample the wall clock into the time
    /// counter, dispatch, and on success advance the cycle and
    /// retired-instruction counters.  SYSTEM instructions trap as illegal
    /// opcodes.
    pub fn step(&self, cpu_state: &mut CpuState, memory: &mut Memory, instruction: u32) -> (r:
        Result<(), Trap>)
        requires
            old(cpu_state).wf(),
        ensures
            final(cpu_state).wf(),
            exists|t: u64|
                #[trigger] table_step_behavior(
                    arch_view(*old(cpu_state), *old(memory)).with_time(t),
                    instruction,
                    arch_view(*final(cpu_state), *final(memory)),
                    r,
                ),
    {
        let now = crate::cpu::instruction_sets::rv32i::sample_wall_clock(cpu_state);
        let ghost pre = arch_view(*cpu_state, *memory);
        proof {
            assert(arch_view(*old(cpu_state), *old(memory)).with_time(now) =~= pre);
        }
        let op = decoder::opcode(instruction);
        let r: Result<(), Trap> = if op == opcodes::SYSTEM {
            Err(Trap::IllegalOpcode)
        } else {
            dispatch_and_count(cpu_state, memory, instruction)
        };
        proof {
            assert(table_step_behavior(pre, instruction, arch_view(*cpu_state, *memory), r));
        }
        r
    }
}

} // verus!
