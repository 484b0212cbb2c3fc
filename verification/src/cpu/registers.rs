//! The register file: `N` general-purpose 32-bit slots with slot 0 pinned to
//! zero, a separate program counter, and the CSR file.

use vstd::prelude::*;

use super::csrs::Csrs;

verus! {

/// The general-purpose slots.  Slot 0 always reads zero: every write is
/// followed, branch-free, by a write of zero to slot 0.
#[derive(Debug)]
pub struct General<const N: usize> {
    /// The slots; `wf` pins the length to `N` and slot 0 to zero.
    pub registers: Vec<u32>,
}

impl<const N: usize> General<N> {
    /// The slots as a sequence.
    pub open spec fn view(&self) -> Seq<u32> {
        self.registers@
    }

    /// Well-formed: `N` slots, slot 0 zero.
    pub open spec fn wf(&self) -> bool {
        self.registers@.len() == N && (N > 0 ==> self.registers@[0] == 0)
    }

    /// Create `N` zeroed slots.
    pub fn new() -> (r: Self)
        ensures
            r.wf(),
            r.view().len() == N,
            forall|i: int| 0 <= i < N ==> r.view()[i] == 0u32,
    {
        let mut registers: Vec<u32> = Vec::new();
        while registers.len() < N
            invariant
                registers@.len() <= N,
                forall|i: int| 0 <= i < registers@.len() ==> registers@[i] == 0u32,
            decreases N - registers@.len(),
        {
            registers.push(0);
        }
        General { registers }
    }

    /// Read a slot.
    pub fn get(&self, slot: usize) -> (r: u32)
        requires
            self.wf(),
            slot < N,
        ensures
            r == self.view()[slot as int],
    {
        self.registers[slot]
    }

    /// Write a slot, then pin slot 0 back to zero.
    pub fn set(&mut self, slot: usize, value: u32)
        requires
            old(self).wf(),
            slot < N,
        ensures
            final(self).wf(),
            final(self).view() == old(self).view().update(slot as int, value).update(0, 0u32),
    {
        self.registers[slot] = value;
        // Reset slot 0 unconditionally: cheaper than a branch, and it keeps
        // the zero register hard-wired.
        self.registers[0] = 0;
    }
}

/// The register file: `N` general slots, the program counter and the CSRs.
/// The view is the sequence of general slots.
#[derive(Debug)]
pub struct Registers<const N: usize> {
    /// The general-purpose slots.
    pub general: General<N>,
    /// The program counter: a distinct 32-bit field, not a slot.
    pub pc: u32,
    /// The control and status registers.
    pub csrs: Csrs,
}

impl<const N: usize> View for Registers<N> {
    type V = Seq<u32>;

    open spec fn view(&self) -> Seq<u32> {
        self.general.view()
    }
}

impl<const N: usize> Registers<N> {
    /// Well-formed: `N` slots, slot 0 zero.  Every constructor establishes
    /// this and every method preserves it.
    pub open spec fn wf(&self) -> bool {
        self@.len() == N && (N > 0 ==> self@[0] == 0)
    }

    /// Create a register file with every slot, the program counter and the
    /// CSRs zero.
    pub fn new() -> (r: Self)
        ensures
            r.wf(),
            r@.len() == N,
            forall|i: int| 0 <= i < N ==> r@[i] == 0u32,
            r.pc == 0,
            r.csrs.rdcycle == 0,
            r.csrs.instret == 0,
            r.csrs.rdtime == 0,
            r.csrs.test == 0,
    {
        Registers { pc: 0, general: General::<N>::new(), csrs: Csrs::new() }
    }

    /// Read the slot; slot 0 is always zero.
    pub fn get(&self, slot: usize) -> (r: u32)
        requires
            self.wf(),
            slot < N,
        ensures
            r == self@[slot as int],
            slot == 0 ==> r == 0,
    {
        self.general.get(slot)
    }

    /// Write the slot; a write to slot 0 is discarded.
    pub fn set(&mut self, slot: usize, value: u32)
        requires
            old(self).wf(),
            slot < N,
        ensures
            final(self).wf(),
            final(self)@ == old(self)@.update(slot as int, value).update(0, 0u32),
            slot != 0 ==> final(self)@[slot as int] == value,
            final(self)@[0] == 0,
            final(self).pc == old(self).pc,
            final(self).csrs == old(self).csrs,
    {
        self.general.set(slot, value)
    }

    /// Read the slot reinterpreted as a two's-complement signed value.
    pub fn geti(&self, slot: usize) -> (r: i32)
        requires
            self.wf(),
            slot < N,
        ensures
            r == self@[slot as int] as i32,
    {
        self.get(slot) as i32
    }

    /// Write the slot from a two's-complement signed value.
    pub fn seti(&mut self, slot: usize, val: i32)
        requires
            old(self).wf(),
            slot < N,
        ensures
            final(self).wf(),
            final(self)@ == old(self)@.update(slot as int, val as u32).update(0, 0u32),
            final(self).pc == old(self).pc,
            final(self).csrs == old(self).csrs,
    {
        self.set(slot, val as u32)
    }
}

/// A register file after a sequence of writes: each write lands in its slot
/// and slot 0 is pinned back to zero.
pub open spec fn apply_writes(regs: Seq<u32>, writes: Seq<(int, u32)>) -> Seq<u32>
    decreases writes.len(),
{
    if writes.len() == 0 {
        regs
    } else {
        apply_writes(regs, writes.drop_last()).update(writes.last().0, writes.last().1).update(
            0,
            0u32,
        )
    }
}

/// After any sequence of register writes, reading slot 0 returns 0: a write
/// never changes the length of the file, and slot 0 stays zero.
pub proof fn lemma_zero_slot_after_writes(regs: Seq<u32>, writes: Seq<(int, u32)>)
    requires
        regs.len() > 0,
        regs[0] == 0,
        forall|k: int| 0 <= k < writes.len() ==> 0 <= (#[trigger] writes[k]).0 < regs.len(),
    ensures
        apply_writes(regs, writes).len() == regs.len(),
        apply_writes(regs, writes)[0] == 0,
    decreases writes.len(),
{
    if writes.len() > 0 {
        assert(forall|k: int|
            0 <= k < writes.len() - 1 ==> writes.drop_last()[k] == writes[k]);
        lemma_zero_slot_after_writes(regs, writes.drop_last());
    }
}

} // verus!
