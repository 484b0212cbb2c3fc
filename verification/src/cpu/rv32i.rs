//! The CPU driver: owns the architectural state and the instruction set,
//! and exposes a single `step` that fetches the word at PC and executes it.

use vstd::prelude::*;

use super::instruction_sets::rv32i::{arch_view, CpuState, EcallHandler, InstructionSet};
use super::instruction_sets::semantics::{is_ecall, step_behavior, Trap};
use crate::memory::{spec_get32, Memory};

verus! {

/// What the reference environment-call convention asks for, decided from
/// the call number in register 10.
#[derive(Clone, Copy, Debug, PartialEq, Eq)]
pub enum EcallAction {
    /// Call number 0: terminate the simulator.
    Terminate,
    /// Call number 1: write the byte to standard output.
    WriteByte(u8),
}

/// Decide the reference hook behaviour from the call number in register 10
/// (`a0`) and the argument in register 11 (`a1`): 0 terminates, 1 writes the
/// low 8 bits of `a1`, anything else is an illegal environment call.
pub fn ecall_action(a0: u32, a1: u32) -> (r: Result<EcallAction, Trap>)
    ensures
        a0 == 0 ==> r == Ok::<EcallAction, Trap>(EcallAction::Terminate),
        a0 == 1 ==> r == Ok::<EcallAction, Trap>(EcallAction::WriteByte(a1 as u8)),
        a0 != 0 && a0 != 1 ==> r == Err::<EcallAction, Trap>(Trap::IllegalEnvironmentCall),
{
    match a0 {
        0 => Ok(EcallAction::Terminate),
        1 => Ok(EcallAction::WriteByte(a1 as u8)),
        _ => Err(Trap::IllegalEnvironmentCall),
    }
}

/// An RV32I CPU: the architectural state and the dispatch table.  A new CPU
/// starts with all registers zero and PC = 0.
pub struct Cpu {
    /// The architectural state.
    pub state: CpuState,
    /// The dispatch table; it holds no state.
    pub tbl: InstructionSet,
}

impl Cpu {
    /// Create a CPU with zeroed state.
    pub fn new() -> (r: Self)
        ensures
            r.state.wf(),
            r.state.registers@.len() == 32,
            forall|i: int| 0 <= i < 32 ==> r.state.registers@[i] == 0u32,
            r.state.registers.pc == 0,
            r.state.registers.csrs.rdcycle == 0,
            r.state.registers.csrs.instret == 0,
            r.state.registers.csrs.test == 0,
    {
        Cpu { state: CpuState::new(), tbl: InstructionSet::new() }
    }

    /// Fetch the 32-bit little-endian word at PC and execute it.  A fetch
    /// that reaches outside the memory traps as an instruction fetch fault
    /// and changes nothing; otherwise the step behaves as the instruction
    /// set does on the fetched word.
    pub fn step<H: EcallHandler>(&mut self, memory: &mut Memory, handler: &mut H) -> (r: Result<
        (),
        Trap,
    >)
        requires
            old(self).state.wf(),
        ensures
            ({
                let pre = arch_view(old(self).state, *old(memory));
                if pre.pc + 4 <= pre.mem.len() {
                    let inst = spec_get32(pre.mem, pre.pc as int);
                    &&& (!is_ecall(inst) ==> final(self).state.wf())
                    &&& exists|t: u64|
                        #[trigger] step_behavior(
                            pre.with_time(t),
                            inst,
                            arch_view(final(self).state, *final(memory)),
                            r,
                        )
                } else {
                    &&& r == Err::<(), Trap>(Trap::InstructionFetchFault)
                    &&& final(self).state == old(self).state
                    &&& final(memory)@ == old(memory)@
                }
            }),
    {
        let pc = self.state.registers.pc;
        match memory.get32(pc as usize) {
            Ok(word) => {
                let r = self.tbl.step(&mut self.state, memory, word, handler);
                proof {
                    let pre = arch_view(old(self).state, *old(memory));
                    let t = choose|t: u64|
                        step_behavior(
                            pre.with_time(t),
                            word,
                            arch_view(self.state, *memory),
                            r,
                        );
                    assert(step_behavior(
                        pre.with_time(t),
                        word,
                        arch_view(self.state, *memory),
                        r,
                    ));
                }
                r
            },
            Err(_) => Err(Trap::InstructionFetchFault),
        }
    }
}

} // verus!
