//! The mathematical model of the RV32I execution engine.
//!
//! `ArchView` is the specification-level machine state; `spec_step` gives
//! the meaning of one instruction over it.  The execution engine is proved
//! against `spec_step`; the lemmas at the end of the file state the laws the
//! semantics obeys (wrapping arithmetic, branch comparisons, shift and load
//! extensions, the JALR target, fences, counters).

use vstd::prelude::*;
use vstd::wrapping::{u32_specs, u64_specs};

use crate::instruction::decoder::{
    spec_b_imm, spec_funct3, spec_funct7, spec_i_imm, spec_j_imm, spec_opcode, spec_rd, spec_rs1,
    spec_rs2, spec_s_imm,
};
use crate::instruction::{funct3, opcodes};
use crate::memory::{spec_get16, spec_get32, spec_set16, spec_set32};

verus! {

/// A trap: a synchronous fault that aborts the current instruction.  Traps
/// are fatal to the step; no trap vector is modelled.
#[derive(Clone, Copy, Debug, PartialEq, Eq)]
pub enum Trap {
    /// Unknown opcode, or unknown funct3/funct7 within a known opcode.
    IllegalOpcode,
    /// The program counter is not a multiple of 4 after JAL or JALR.
    UnalignedInstructionAddress,
    /// A load or store reached outside the memory bounds.
    MemoryAccessViolation,
    /// A reserved CSR address, or a write to a read-only CSR with a non-zero
    /// effective write.
    IllegalCsrAccess,
    /// An environment call with an unrecognised call number.
    IllegalEnvironmentCall,
    /// A breakpoint (EBREAK).
    DebugBreakpoint,
    /// An instruction fetch reached outside the memory bounds.
    InstructionFetchFault,
}

/// The specification-level machine state: the 32 general registers, the
/// program counter, the three CSR counters, the scratch CSR and the memory
/// bytes.
#[verifier::ext_equal]
pub struct ArchView {
    /// The general registers; well-formed states have 32 of them with slot 0
    /// zero.
    pub regs: Seq<u32>,
    /// The program counter.
    pub pc: u32,
    /// The cycle counter.
    pub rdcycle: u64,
    /// The wall-clock counter.
    pub rdtime: u64,
    /// The retired-instruction counter.
    pub instret: u64,
    /// The scratch CSR at address 0x1.
    pub test: u32,
    /// The memory bytes.
    pub mem: Seq<u8>,
}

impl ArchView {
    /// Well-formed: 32 register slots, slot 0 zero.
    pub open spec fn wf(self) -> bool {
        self.regs.len() == 32 && self.regs[0] == 0
    }

    /// The same state with the wall-clock counter replaced, as the engine
    /// does right before dispatch.
    pub open spec fn with_time(self, t: u64) -> ArchView {
        ArchView { rdtime: t, ..self }
    }
}

/// The outcome of one instruction at the specification level.
pub enum SpecStep {
    /// The instruction retired; the new state is carried.
    Next(ArchView),
    /// The instruction is ECALL: the effect belongs to the environment-call
    /// hook.
    EnvCall,
    /// The instruction trapped; the engine promises nothing about the state
    /// it leaves behind.
    Trapped(Trap),
}

/// The signed (two's-complement) value of a 32-bit word.
pub open spec fn to_signed(x: u32) -> int {
    if x < 0x8000_0000 {
        x as int
    } else {
        x - 0x1_0000_0000
    }
}

/// Write `v` to slot `rd`; slot 0 stays pinned to zero.
pub open spec fn wr(regs: Seq<u32>, rd: u8, v: u32) -> Seq<u32> {
    regs.update(rd as int, v).update(0, 0u32)
}

/// A byte sign-extended to 32 bits.
pub open spec fn sext8(b: u8) -> u32 {
    if b < 0x80 {
        b as u32
    } else {
        (b + 0xFFFF_FF00) as u32
    }
}

/// A halfword sign-extended to 32 bits.
pub open spec fn sext16(h: u16) -> u32 {
    if h < 0x8000 {
        h as u32
    } else {
        (h + 0xFFFF_0000) as u32
    }
}

/// Arithmetic right shift: the vacated bits repeat the sign bit.
pub open spec fn sra32(a: u32, sh: u32) -> u32
    recommends
        sh < 32,
{
    if a < 0x8000_0000 {
        a >> sh
    } else {
        (a >> sh) | !(0xFFFF_FFFFu32 >> sh)
    }
}

/// The ALU result of an OP-IMM instruction, or `None` where the funct7 zone
/// is illegal for a shift.
pub open spec fn alu_imm(f3: u8, f7: u8, a: u32, imm: i32) -> Option<u32> {
    if f3 == funct3::ADDI {
        Some(u32_specs::wrapping_add_signed(a, imm))
    } else if f3 == funct3::SLTI {
        Some(
            if to_signed(a) < imm {
                1u32
            } else {
                0u32
            },
        )
    } else if f3 == funct3::SLTIU {
        Some(
            if a < imm as u32 {
                1u32
            } else {
                0u32
            },
        )
    } else if f3 == funct3::XORI {
        Some(a ^ (imm as u32))
    } else if f3 == funct3::ORI {
        Some(a | (imm as u32))
    } else if f3 == funct3::ANDI {
        Some(a & (imm as u32))
    } else if f3 == funct3::SLLI {
        if f7 == 0 {
            Some(a << ((imm as u32) & 0x1F))
        } else {
            None
        }
    } else if f3 == funct3::SRLI_OR_SRAI {
        if f7 == 0x20 {
            Some(sra32(a, (imm as u32) & 0x1F))
        } else if f7 == 0 {
            Some(a >> ((imm as u32) & 0x1F))
        } else {
            None
        }
    } else {
        None
    }
}

/// The ALU result of an OP instruction, or `None` where funct7 is illegal.
pub open spec fn alu_reg(f3: u8, f7: u8, a: u32, b: u32) -> Option<u32> {
    if f3 == funct3::ADD_OR_SUB {
        if f7 == 0x20 {
            Some(u32_specs::wrapping_sub(a, b))
        } else if f7 == 0 {
            Some(u32_specs::wrapping_add(a, b))
        } else {
            None
        }
    } else if f3 == funct3::SLL {
        Some(a << (b & 0x1F))
    } else if f3 == funct3::SLT {
        Some(
            if to_signed(a) < to_signed(b) {
                1u32
            } else {
                0u32
            },
        )
    } else if f3 == funct3::SLTU {
        Some(
            if a < b {
                1u32
            } else {
                0u32
            },
        )
    } else if f3 == funct3::XOR {
        Some(a ^ b)
    } else if f3 == funct3::SRL_OR_SRA {
        if f7 == 0x20 {
            Some(sra32(a, b & 0x1F))
        } else if f7 == 0 {
            Some(a >> (b & 0x1F))
        } else {
            None
        }
    } else if f3 == funct3::OR {
        Some(a | b)
    } else if f3 == funct3::AND {
        Some(a & b)
    } else {
        None
    }
}

/// Whether a branch is taken, or `None` for the two illegal funct3 values.
pub open spec fn branch_taken(f3: u8, a: u32, b: u32) -> Option<bool> {
    if f3 == funct3::BEQ {
        Some(a == b)
    } else if f3 == funct3::BNE {
        Some(a != b)
    } else if f3 == funct3::BLT {
        Some(to_signed(a) < to_signed(b))
    } else if f3 == funct3::BGE {
        Some(to_signed(a) >= to_signed(b))
    } else if f3 == funct3::BLTU {
        Some(a < b)
    } else if f3 == funct3::BGEU {
        Some(a >= b)
    } else {
        None
    }
}

/// The value a load returns from memory `m` at effective address `ea`, the
/// trap it raises otherwise.
pub open spec fn load_result(m: Seq<u8>, f3: u8, ea: u32) -> Result<u32, Trap> {
    if f3 == funct3::LB {
        if ea + 1 <= m.len() {
            Ok(sext8(m[ea as int]))
        } else {
            Err(Trap::MemoryAccessViolation)
        }
    } else if f3 == funct3::LH {
        if ea + 2 <= m.len() {
            Ok(sext16(spec_get16(m, ea as int)))
        } else {
            Err(Trap::MemoryAccessViolation)
        }
    } else if f3 == funct3::LW {
        if ea + 4 <= m.len() {
            Ok(spec_get32(m, ea as int))
        } else {
            Err(Trap::MemoryAccessViolation)
        }
    } else if f3 == funct3::LBU {
        if ea + 1 <= m.len() {
            Ok(m[ea as int] as u32)
        } else {
            Err(Trap::MemoryAccessViolation)
        }
    } else if f3 == funct3::LHU {
        if ea + 2 <= m.len() {
            Ok(spec_get16(m, ea as int) as u32)
        } else {
            Err(Trap::MemoryAccessViolation)
        }
    } else {
        Err(Trap::IllegalOpcode)
    }
}

/// The memory after a store of the low bytes of `v` at effective address
/// `ea`, or the trap the store raises.
pub open spec fn store_result(m: Seq<u8>, f3: u8, ea: u32, v: u32) -> Result<Seq<u8>, Trap> {
    if f3 == funct3::SB {
        if ea + 1 <= m.len() {
            Ok(m.update(ea as int, v as u8))
        } else {
            Err(Trap::MemoryAccessViolation)
        }
    } else if f3 == funct3::SH {
        if ea + 2 <= m.len() {
            Ok(spec_set16(m, ea as int, v as u16))
        } else {
            Err(Trap::MemoryAccessViolation)
        }
    } else if f3 == funct3::SW {
        if ea + 4 <= m.len() {
            Ok(spec_set32(m, ea as int, v))
        } else {
            Err(Trap::MemoryAccessViolation)
        }
    } else {
        Err(Trap::IllegalOpcode)
    }
}

/// The CSR addresses a read serves: the six counter halves and the scratch
/// register.
pub open spec fn csr_readable(addr: u32) -> bool {
    addr == 0x1 || addr == 0xC00 || addr == 0xC80 || addr == 0xC01 || addr == 0xC81 || addr == 0xC02
        || addr == 0xC82
}

/// The CSR addresses a write may touch: only the scratch register.
pub open spec fn csr_writable(addr: u32) -> bool {
    addr == 0x1
}

/// The value of a readable CSR.
pub open spec fn csr_value(s: ArchView, addr: u32) -> u32
    recommends
        csr_readable(addr),
{
    if addr == 0xC00 {
        s.rdcycle as u32
    } else if addr == 0xC80 {
        (s.rdcycle >> 32) as u32
    } else if addr == 0xC01 {
        s.rdtime as u32
    } else if addr == 0xC81 {
        (s.rdtime >> 32) as u32
    } else if addr == 0xC02 {
        s.instret as u32
    } else if addr == 0xC82 {
        (s.instret >> 32) as u32
    } else {
        s.test
    }
}

/// The value a CSR write leaves in the register: CSRRW writes the source,
/// CSRRS sets the source's bits, CSRRC clears them.
pub open spec fn csr_new_value(f3: u8, oldv: u32, src: u32) -> u32 {
    if f3 == funct3::CSRRW || f3 == funct3::CSRRWI {
        src
    } else if f3 == funct3::CSRRS || f3 == funct3::CSRRSI {
        oldv | src
    } else {
        oldv & !src
    }
}

/// A Zicsr instruction over the view: the new register file and scratch CSR,
/// or the trap.  The write is skipped when the encoded source is zero
/// (CSRRS/CSRRC families), the read when the destination is zero.
pub open spec fn csr_step(s: ArchView, inst: u32) -> Result<(Seq<u32>, u32), Trap> {
    let f3 = spec_funct3(inst);
    let rd = spec_rd(inst);
    let rs1f = spec_rs1(inst);
    let addr = inst >> 20;
    let src = if f3 == funct3::CSRRWI || f3 == funct3::CSRRSI || f3 == funct3::CSRRCI {
        rs1f as u32
    } else {
        s.regs[rs1f as int]
    };
    let writes = f3 == funct3::CSRRW || f3 == funct3::CSRRWI || rs1f != 0;
    if f3 == 4 {
        Err(Trap::IllegalOpcode)
    } else if writes && !csr_writable(addr) {
        Err(Trap::IllegalCsrAccess)
    } else if rd != 0 && !csr_readable(addr) {
        Err(Trap::IllegalCsrAccess)
    } else {
        let oldv = csr_value(s, addr);
        let regs2 = if rd != 0 {
            wr(s.regs, rd, oldv)
        } else {
            s.regs
        };
        let test2 = if writes {
            csr_new_value(f3, oldv, src)
        } else {
            s.test
        };
        Ok((regs2, test2))
    }
}

/// The state after a retired instruction: new registers, memory, scratch CSR
/// and program counter; the cycle and retired-instruction counters advance
/// by exactly one.
pub open spec fn advance(s: ArchView, regs2: Seq<u32>, mem2: Seq<u8>, test2: u32, pc2: u32) -> ArchView {
    ArchView {
        regs: regs2,
        pc: pc2,
        rdcycle: u64_specs::wrapping_add(s.rdcycle, 1),
        rdtime: s.rdtime,
        instret: u64_specs::wrapping_add(s.instret, 1),
        test: test2,
        mem: mem2,
    }
}

/// The instruction is an environment call: SYSTEM opcode, funct3 0,
/// immediate 0.
pub open spec fn is_ecall(inst: u32) -> bool {
    spec_opcode(inst) == opcodes::SYSTEM && spec_funct3(inst) == funct3::ECALL_OR_EBREAK && inst
        >> 20 == 0
}

/// One instruction of the execution engine, from the state whose wall-clock
/// counter was just sampled.  All arithmetic wraps; traps carry no state.
pub open spec fn spec_step(s: ArchView, inst: u32) -> SpecStep
    recommends
        s.wf(),
{
    let op = spec_opcode(inst);
    let f3 = spec_funct3(inst);
    let f7 = spec_funct7(inst);
    let rd = spec_rd(inst);
    let a = s.regs[spec_rs1(inst) as int];
    let b = s.regs[spec_rs2(inst) as int];
    let pc4 = u32_specs::wrapping_add(s.pc, 4);
    if op == opcodes::OP_IMM {
        match alu_imm(f3, f7, a, spec_i_imm(inst)) {
            Some(v) => SpecStep::Next(advance(s, wr(s.regs, rd, v), s.mem, s.test, pc4)),
            None => SpecStep::Trapped(Trap::IllegalOpcode),
        }
    } else if op == opcodes::OP {
        match alu_reg(f3, f7, a, b) {
            Some(v) => SpecStep::Next(advance(s, wr(s.regs, rd, v), s.mem, s.test, pc4)),
            None => SpecStep::Trapped(Trap::IllegalOpcode),
        }
    } else if op == opcodes::LUI {
        SpecStep::Next(advance(s, wr(s.regs, rd, inst & 0xFFFF_F000), s.mem, s.test, pc4))
    } else if op == opcodes::AUIPC {
        SpecStep::Next(
            advance(
                s,
                wr(s.regs, rd, u32_specs::wrapping_add(s.pc, inst & 0xFFFF_F000)),
                s.mem,
                s.test,
                pc4,
            ),
        )
    } else if op == opcodes::JAL {
        let target = u32_specs::wrapping_add_signed(s.pc, spec_j_imm(inst));
        if target & 3 != 0 {
            SpecStep::Trapped(Trap::UnalignedInstructionAddress)
        } else {
            SpecStep::Next(advance(s, wr(s.regs, rd, pc4), s.mem, s.test, target))
        }
    } else if op == opcodes::JALR {
        let target = u32_specs::wrapping_add_signed(a, spec_i_imm(inst)) & 0xFFFF_FFFE;
        if target & 3 != 0 {
            SpecStep::Trapped(Trap::UnalignedInstructionAddress)
        } else {
            SpecStep::Next(advance(s, wr(s.regs, rd, pc4), s.mem, s.test, target))
        }
    } else if op == opcodes::BRANCH {
        match branch_taken(f3, a, b) {
            Some(c) => SpecStep::Next(
                advance(
                    s,
                    s.regs,
                    s.mem,
                    s.test,
                    if c {
                        u32_specs::wrapping_add_signed(s.pc, spec_b_imm(inst))
                    } else {
                        pc4
                    },
                ),
            ),
            None => SpecStep::Trapped(Trap::IllegalOpcode),
        }
    } else if op == opcodes::LOAD {
        let ea = u32_specs::wrapping_add_signed(a, spec_i_imm(inst));
        match load_result(s.mem, f3, ea) {
            Ok(v) => SpecStep::Next(advance(s, wr(s.regs, rd, v), s.mem, s.test, pc4)),
            Err(t) => SpecStep::Trapped(t),
        }
    } else if op == opcodes::STORE {
        let ea = u32_specs::wrapping_add_signed(a, spec_s_imm(inst));
        match store_result(s.mem, f3, ea, b) {
            Ok(m2) => SpecStep::Next(advance(s, s.regs, m2, s.test, pc4)),
            Err(t) => SpecStep::Trapped(t),
        }
    } else if op == opcodes::FENCE {
        SpecStep::Next(advance(s, s.regs, s.mem, s.test, pc4))
    } else if op == opcodes::SYSTEM {
        if f3 == funct3::ECALL_OR_EBREAK {
            if inst >> 20 == 0 {
                SpecStep::EnvCall
            } else if inst >> 20 == 1 {
                SpecStep::Trapped(Trap::DebugBreakpoint)
            } else {
                SpecStep::Trapped(Trap::IllegalOpcode)
            }
        } else {
            match csr_step(s, inst) {
                Ok((regs2, test2)) => SpecStep::Next(advance(s, regs2, s.mem, test2, pc4)),
                Err(t) => SpecStep::Trapped(t),
            }
        }
    } else {
        SpecStep::Trapped(Trap::IllegalOpcode)
    }
}

/// One instruction of the reduced table that knows no SYSTEM opcode: any
/// SYSTEM instruction traps as an illegal opcode, everything else behaves as
/// `spec_step`.
pub open spec fn spec_table_step(s: ArchView, inst: u32) -> SpecStep {
    if spec_opcode(inst) == opcodes::SYSTEM {
        SpecStep::Trapped(Trap::IllegalOpcode)
    } else {
        spec_step(s, inst)
    }
}

/// How one engine step relates the pre-state (with the freshly sampled
/// time), the instruction, the post-state and the returned result.  For an
/// environment call the effect belongs to the hook, so nothing is pinned.
pub open spec fn step_behavior(pre: ArchView, inst: u32, post: ArchView, r: Result<(), Trap>) -> bool {
    match spec_step(pre, inst) {
        SpecStep::Next(s2) => r is Ok && post == s2,
        SpecStep::EnvCall => true,
        SpecStep::Trapped(t) => r == Err::<(), Trap>(t),
    }
}

/// As `step_behavior`, for the reduced table.
pub open spec fn table_step_behavior(
    pre: ArchView,
    inst: u32,
    post: ArchView,
    r: Result<(), Trap>,
) -> bool {
    match spec_table_step(pre, inst) {
        SpecStep::Next(s2) => r is Ok && post == s2,
        SpecStep::EnvCall => true,
        SpecStep::Trapped(t) => r == Err::<(), Trap>(t),
    }
}


/// After any retired instruction, the cycle and retired-instruction counters
/// each advance by exactly one (wrapping at 2^64) and the sampled time is
/// kept.
pub proof fn lemma_counters_advance(s: ArchView, inst: u32)
    ensures
        match spec_step(s, inst) {
            SpecStep::Next(s2) => s2.rdcycle == u64_specs::wrapping_add(s.rdcycle, 1) && s2.instret
                == u64_specs::wrapping_add(s.instret, 1) && s2.rdtime == s.rdtime,
            SpecStep::EnvCall => true,
            SpecStep::Trapped(t) => true,
        },
{
}

/// ADD and ADDI results equal the two's-complement wrapping sum of their
/// inputs, SUB the wrapping difference: the signed value of the result lies
/// in [-2^31, 2^31) and differs from the exact sum or difference by a
/// multiple of 2^32.
pub proof fn lemma_wrapping_arithmetic(a: u32, b: u32, imm: i32)
    ensures
        alu_reg(funct3::ADD_OR_SUB, 0, a, b) == Some(u32_specs::wrapping_add(a, b)),
        alu_reg(funct3::ADD_OR_SUB, 0x20, a, b) == Some(u32_specs::wrapping_sub(a, b)),
        alu_imm(funct3::ADDI, 0, a, imm) == Some(u32_specs::wrapping_add_signed(a, imm)),
        ({
            let exact = to_signed(a) + to_signed(b);
            let r = to_signed(u32_specs::wrapping_add(a, b));
            -0x8000_0000 <= r < 0x8000_0000 && (r == exact || r == exact - 0x1_0000_0000 || r
                == exact + 0x1_0000_0000)
        }),
        ({
            let exact = to_signed(a) - to_signed(b);
            let r = to_signed(u32_specs::wrapping_sub(a, b));
            -0x8000_0000 <= r < 0x8000_0000 && (r == exact || r == exact - 0x1_0000_0000 || r
                == exact + 0x1_0000_0000)
        }),
        ({
            let exact = to_signed(a) + imm;
            let r = to_signed(u32_specs::wrapping_add_signed(a, imm));
            -0x8000_0000 <= r < 0x8000_0000 && (r == exact || r == exact - 0x1_0000_0000 || r
                == exact + 0x1_0000_0000)
        }),
{
}

/// Branch decisions agree with equality for BEQ/BNE, with the
/// two's-complement signed comparison for BLT/BGE, and with the unsigned
/// comparison for BLTU/BGEU, across all 32-bit inputs.
pub proof fn lemma_branch_decisions(a: u32, b: u32)
    ensures
        branch_taken(funct3::BEQ, a, b) == Some(a == b),
        branch_taken(funct3::BNE, a, b) == Some(a != b),
        branch_taken(funct3::BLT, a, b) == Some(to_signed(a) < to_signed(b)),
        branch_taken(funct3::BGE, a, b) == Some(to_signed(a) >= to_signed(b)),
        branch_taken(funct3::BLTU, a, b) == Some((a as int) < b as int),
        branch_taken(funct3::BGEU, a, b) == Some((a as int) >= b as int),
        to_signed(a) == a - (if a >= 0x8000_0000 {
            0x1_0000_0000int
        } else {
            0int
        }),
{
}

/// Two successive fences leave the registers, the memory and the scratch CSR
/// unchanged and advance the PC by 4 each time.  (The cycle and
/// retired-instruction counters advance by one per step, as after every
/// retired instruction.)
pub proof fn lemma_fence_twice(s: ArchView, i1: u32, i2: u32)
    requires
        spec_opcode(i1) == opcodes::FENCE,
        spec_opcode(i2) == opcodes::FENCE,
    ensures
        match spec_step(s, i1) {
            SpecStep::Next(s1) => s1.regs == s.regs && s1.mem == s.mem && s1.test == s.test
                && s1.pc == u32_specs::wrapping_add(s.pc, 4) && match spec_step(s1, i2) {
                SpecStep::Next(s2) => s2.regs == s.regs && s2.mem == s.mem && s2.test == s.test
                    && s2.pc == u32_specs::wrapping_add(s1.pc, 4),
                SpecStep::EnvCall => false,
                SpecStep::Trapped(t) => false,
            },
            SpecStep::EnvCall => false,
            SpecStep::Trapped(t) => false,
        },
{
}

/// Shifts by 0 are identities; shifts by 31 keep a single bit of the input;
/// an arithmetic right shift of a word of all ones is all ones for every
/// shift amount in [0, 31].
pub proof fn lemma_shift_boundaries(a: u32, sh: u32)
    requires
        sh < 32,
    ensures
        a << 0u32 == a,
        a >> 0u32 == a,
        sra32(a, 0) == a,
        a << 31u32 == (if a & 1 == 1 {
            0x8000_0000u32
        } else {
            0u32
        }),
        a >> 31u32 == (if a >= 0x8000_0000 {
            1u32
        } else {
            0u32
        }),
        sra32(a, 31) == (if a >= 0x8000_0000 {
            0xFFFF_FFFFu32
        } else {
            0u32
        }),
        sra32(0xFFFF_FFFF, sh) == 0xFFFF_FFFFu32,
{
    assert(a << 0u32 == a && a >> 0u32 == a && ((a >> 0u32) | !(0xFFFF_FFFFu32 >> 0u32)) == a && (
    a << 31u32 == (if a & 1 == 1 {
        0x8000_0000u32
    } else {
        0u32
    })) && (a >> 31u32 == (if a >= 0x8000_0000 {
        1u32
    } else {
        0u32
    })) && (a >= 0x8000_0000 ==> ((a >> 31u32) | !(0xFFFF_FFFFu32 >> 31u32)) == 0xFFFF_FFFFu32)
        && ((0xFFFF_FFFFu32 >> sh) | !(0xFFFF_FFFFu32 >> sh)) == 0xFFFF_FFFFu32) by (bit_vector);
}

/// LB and LH sign-extend: the signed value of the extension is the byte's or
/// halfword's own two's-complement value.  LBU and LHU zero-extend: the
/// 32-bit result is the byte or halfword itself.
pub proof fn lemma_load_extensions(b: u8, h: u16)
    ensures
        to_signed(sext8(b)) == (if b < 0x80 {
            b as int
        } else {
            b - 0x100
        }),
        to_signed(sext16(h)) == (if h < 0x8000 {
            h as int
        } else {
            h - 0x1_0000
        }),
        b < 0x80 ==> sext8(b) == b as u32,
        h < 0x8000 ==> sext16(h) == h as u32,
        (b as u32) as int == b as int,
        (h as u32) as int == h as int,
{
}

/// The JALR target clears bit 0 of rs1 plus the immediate; the link write
/// uses the old PC + 4, and the jump uses the original rs1 value, also when
/// the destination register equals the source.
pub proof fn lemma_jalr(s: ArchView, inst: u32)
    requires
        spec_opcode(inst) == opcodes::JALR,
    ensures
        ({
            let a = s.regs[spec_rs1(inst) as int];
            let target = u32_specs::wrapping_add_signed(a, spec_i_imm(inst)) & 0xFFFF_FFFE;
            &&& target & 1 == 0
            &&& match spec_step(s, inst) {
                SpecStep::Next(s2) => s2.pc == target && s2.regs == wr(
                    s.regs,
                    spec_rd(inst),
                    u32_specs::wrapping_add(s.pc, 4),
                ),
                SpecStep::EnvCall => false,
                SpecStep::Trapped(t) => t == Trap::UnalignedInstructionAddress && target & 3 != 0,
            }
        }),
{
    let a = s.regs[spec_rs1(inst) as int];
    let t0 = u32_specs::wrapping_add_signed(a, spec_i_imm(inst));
    assert((t0 & 0xFFFF_FFFE) & 1 == 0) by (bit_vector);
}

} // verus!
