//! The architectural state owned by a CPU instance.

use vstd::prelude::*;

use super::registers::Registers;

verus! {

/// The architectural state: the register file (which carries the program
/// counter and the CSR file with it).
#[derive(Debug)]
pub struct CpuState<const N: usize> {
    /// The register file.
    pub registers: Registers<N>,
}

impl<const N: usize> CpuState<N> {
    /// Well-formed: the register file is.
    pub open spec fn wf(&self) -> bool {
        self.registers.wf()
    }

    /// Create a state with every register, the program counter and the CSRs
    /// zero.
    pub fn new() -> (r: Self)
        ensures
            r.wf(),
            r.registers@.len() == N,
            forall|i: int| 0 <= i < N ==> r.registers@[i] == 0u32,
            r.registers.pc == 0,
            r.registers.csrs.rdcycle == 0,
            r.registers.csrs.instret == 0,
            r.registers.csrs.rdtime == 0,
            r.registers.csrs.test == 0,
    {
        CpuState { registers: Registers::<N>::new() }
    }
}

} // verus!
