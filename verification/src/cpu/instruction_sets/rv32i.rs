//! The RV32I execution engine: opcode dispatch over the architectural state,
//! proved against the machine model in `semantics`.
//!
//! `InstructionSet::step` executes one instruction word: it samples the
//! wall clock into the time counter, dispatches, and on success advances the
//! cycle and retired-instruction counters by one.  An ECALL invokes the
//! caller-supplied hook with the current state and then retires; every trap
//! is returned as a `Trap` value.

use vstd::prelude::*;
use vstd::wrapping::{u32_specs, u64_specs};

use crate::instruction::decoder;
use crate::instruction::decoder::{
    spec_b_imm, spec_funct3, spec_funct7, spec_i_imm, spec_j_imm, spec_opcode, spec_rd, spec_rs1,
    spec_rs2, spec_s_imm,
};
use crate::instruction::{funct3, opcodes};
use crate::memory::Memory;
use super::op_args::OpArgs;
use super::semantics::{
    alu_imm, alu_reg, branch_taken, csr_new_value, csr_step, is_ecall, load_result, sext16, sext8,
    spec_step, sra32, step_behavior, store_result, to_signed, wr, ArchView, SpecStep, Trap,
};

verus! {

/// The architectural state the engine runs on: 32 registers.
pub type CpuState = crate::cpu::base::CpuState<32>;

/// The environment-call hook.  The embedding program implements it; the
/// engine invokes it on every ECALL with the current architectural state and
/// memory, and turns an error into the trap of the failing step.
pub trait EcallHandler {
    /// Handle one environment call.
    fn on_ecall(&mut self, state: &mut CpuState, memory: &mut Memory) -> Result<(), Trap>;
}

/// The specification-level view of the engine's state and memory.
pub open spec fn arch_view(state: CpuState, memory: Memory) -> ArchView {
    ArchView {
        regs: state.registers@,
        pc: state.registers.pc,
        rdcycle: state.registers.csrs.rdcycle,
        rdtime: state.registers.csrs.rdtime,
        instret: state.registers.csrs.instret,
        test: state.registers.csrs.test,
        mem: memory@,
    }
}

/// Relies on std::time::SystemTime::now: the seconds of wall-clock time
/// since the Unix epoch, or zero if the clock reads before the epoch.
/// Nothing is promised of the result: it depends on the machine's clock.
#[verifier::external_body]
fn wall_clock_seconds() -> u64 {
    match std::time::SystemTime::now().duration_since(std::time::SystemTime::UNIX_EPOCH) {
        Ok(d) => d.as_secs(),
        Err(_) => 0,
    }
}

/// Sample the wall clock into the time counter; nothing else changes.
pub(crate) fn sample_wall_clock(state: &mut CpuState) -> (t: u64)
    ensures
        old(state).wf() ==> final(state).wf(),
        final(state).registers@ == old(state).registers@,
        final(state).registers.pc == old(state).registers.pc,
        final(state).registers.csrs.rdcycle == old(state).registers.csrs.rdcycle,
        final(state).registers.csrs.instret == old(state).registers.csrs.instret,
        final(state).registers.csrs.test == old(state).registers.csrs.test,
        final(state).registers.csrs.rdtime == t,
{
    let now = wall_clock_seconds();
    state.registers.csrs.rdtime = now;
    now
}

/// A masked shift amount is a legal shift.
proof fn lemma_shamt(x: u32)
    ensures
        x & 0x1F < 32,
{
    assert(x & 0x1F < 32) by (bit_vector);
}

/// Reinterpreting a signed value as unsigned keeps its two's-complement
/// meaning.
proof fn lemma_i32_to_u32(x: i32)
    ensures
        to_signed(x as u32) == x as int,
{
    assert((if (x as u32) < 0x8000_0000 {
        (x as u32) as int
    } else {
        (x as u32) - 0x1_0000_0000
    }) == x as int) by (bit_vector);
}

/// Signed comparison of two words by their two's-complement values.
fn signed_lt(a: u32, b: u32) -> (r: bool)
    ensures
        r == (to_signed(a) < to_signed(b)),
{
    let negative_a = a >= 0x8000_0000;
    let negative_b = b >= 0x8000_0000;
    if negative_a == negative_b {
        a < b
    } else {
        negative_a
    }
}

/// Signed comparison of a word against an immediate.
fn signed_lt_imm(a: u32, imm: i32) -> (r: bool)
    ensures
        r == (to_signed(a) < imm),
{
    proof {
        lemma_i32_to_u32(imm);
    }
    signed_lt(a, imm as u32)
}

/// Arithmetic right shift: shift, then fill the vacated bits with the sign.
fn sra_exec(a: u32, sh: u32) -> (r: u32)
    requires
        sh < 32,
    ensures
        r == sra32(a, sh),
{
    if a < 0x8000_0000 {
        a >> sh
    } else {
        (a >> sh) | !(0xFFFF_FFFFu32 >> sh)
    }
}

/// Sign extend a byte to 32 bits.
fn sign_extend_byte_32(b: u8) -> (r: u32)
    ensures
        r == sext8(b),
{
    if b < 0x80 {
        b as u32
    } else {
        (b as u32) + 0xFFFF_FF00
    }
}

/// Sign extend a halfword to 32 bits.
fn sign_extend_half_32(h: u16) -> (r: u32)
    ensures
        r == sext16(h),
{
    if h < 0x8000 {
        h as u32
    } else {
        (h as u32) + 0xFFFF_0000
    }
}

/// The OP-IMM ALU.
fn alu_imm_exec(f3: u8, f7: u8, a: u32, imm: i32) -> (r: Option<u32>)
    ensures
        r == alu_imm(f3, f7, a, imm),
{
    if f3 == funct3::ADDI {
        Some(a.wrapping_add_signed(imm))
    } else if f3 == funct3::SLTI {
        Some(
            if signed_lt_imm(a, imm) {
                1
            } else {
                0
            },
        )
    } else if f3 == funct3::SLTIU {
        Some(
            if a < imm as u32 {
                1
            } else {
                0
            },
        )
    } else if f3 == funct3::XORI {
        Some(a ^ (imm as u32))
    } else if f3 == funct3::ORI {
        Some(a | (imm as u32))
    } else if f3 == funct3::ANDI {
        Some(a & (imm as u32))
    } else if f3 == funct3::SLLI {
        if f7 == 0 {
            proof {
                lemma_shamt(imm as u32);
            }
            Some(a << ((imm as u32) & 0x1F))
        } else {
            None
        }
    } else if f3 == funct3::SRLI_OR_SRAI {
        let sh = (imm as u32) & 0x1F;
        proof {
            lemma_shamt(imm as u32);
        }
        if f7 == 0x20 {
            Some(sra_exec(a, sh))
        } else if f7 == 0 {
            Some(a >> sh)
        } else {
            None
        }
    } else {
        None
    }
}

/// The OP ALU.
fn alu_reg_exec(f3: u8, f7: u8, a: u32, b: u32) -> (r: Option<u32>)
    ensures
        r == alu_reg(f3, f7, a, b),
{
    if f3 == funct3::ADD_OR_SUB {
        if f7 == 0x20 {
            Some(a.wrapping_sub(b))
        } else if f7 == 0 {
            Some(a.wrapping_add(b))
        } else {
            None
        }
    } else if f3 == funct3::SLL {
        proof {
            lemma_shamt(b);
        }
        Some(a << (b & 0x1F))
    } else if f3 == funct3::SLT {
        Some(
            if signed_lt(a, b) {
                1
            } else {
                0
            },
        )
    } else if f3 == funct3::SLTU {
        Some(
            if a < b {
                1
            } else {
                0
            },
        )
    } else if f3 == funct3::XOR {
        Some(a ^ b)
    } else if f3 == funct3::SRL_OR_SRA {
        let sh = b & 0x1F;
        proof {
            lemma_shamt(b);
        }
        if f7 == 0x20 {
            Some(sra_exec(a, sh))
        } else if f7 == 0 {
            Some(a >> sh)
        } else {
            None
        }
    } else if f3 == funct3::OR {
        Some(a | b)
    } else if f3 == funct3::AND {
        Some(a & b)
    } else {
        None
    }
}

/// Whether the branch is taken.
fn branch_taken_exec(f3: u8, a: u32, b: u32) -> (r: Option<bool>)
    ensures
        r == branch_taken(f3, a, b),
{
    if f3 == funct3::BEQ {
        Some(a == b)
    } else if f3 == funct3::BNE {
        Some(a != b)
    } else if f3 == funct3::BLT {
        Some(signed_lt(a, b))
    } else if f3 == funct3::BGE {
        Some(!signed_lt(a, b))
    } else if f3 == funct3::BLTU {
        Some(a < b)
    } else if f3 == funct3::BGEU {
        Some(a >= b)
    } else {
        None
    }
}

/// Register-immediate ALU operations: read rs1, apply the funct3 operation
/// with the sign-extended I-immediate, write rd.
fn op_imm(state: &mut CpuState, instruction: u32) -> (r: Result<(), Trap>)
    requires
        old(state).wf(),
        spec_opcode(instruction) == opcodes::OP_IMM,
    ensures
        final(state).wf(),
        final(state).registers.csrs == old(state).registers.csrs,
        ({
            let a = old(state).registers@[spec_rs1(instruction) as int];
            match alu_imm(
                spec_funct3(instruction),
                spec_funct7(instruction),
                a,
                spec_i_imm(instruction),
            ) {
                Some(v) => r is Ok && final(state).registers@ == wr(
                    old(state).registers@,
                    spec_rd(instruction),
                    v,
                ) && final(state).registers.pc == u32_specs::wrapping_add(old(state).registers.pc, 4),
                None => r == Err::<(), Trap>(Trap::IllegalOpcode) && *final(state) == *old(state),
            }
        }),
{
    let args = OpArgs { instruction };
    let a = state.registers.get(args.rs1());
    match alu_imm_exec(args.funct3(), args.funct7(), a, args.i_imm()) {
        Some(v) => {
            state.registers.set(args.rd(), v);
            state.registers.pc = state.registers.pc.wrapping_add(4);
            Ok(())
        },
        None => Err(Trap::IllegalOpcode),
    }
}

/// Register-register ALU operations: read rs1 and rs2, apply the
/// funct3/funct7 operation, write rd.
fn op(state: &mut CpuState, instruction: u32) -> (r: Result<(), Trap>)
    requires
        old(state).wf(),
        spec_opcode(instruction) == opcodes::OP,
    ensures
        final(state).wf(),
        final(state).registers.csrs == old(state).registers.csrs,
        ({
            let a = old(state).registers@[spec_rs1(instruction) as int];
            let b = old(state).registers@[spec_rs2(instruction) as int];
            match alu_reg(spec_funct3(instruction), spec_funct7(instruction), a, b) {
                Some(v) => r is Ok && final(state).registers@ == wr(
                    old(state).registers@,
                    spec_rd(instruction),
                    v,
                ) && final(state).registers.pc == u32_specs::wrapping_add(old(state).registers.pc, 4),
                None => r == Err::<(), Trap>(Trap::IllegalOpcode) && *final(state) == *old(state),
            }
        }),
{
    let args = OpArgs { instruction };
    let a = state.registers.get(args.rs1());
    let b = state.registers.get(args.rs2());
    match alu_reg_exec(args.funct3(), args.funct7(), a, b) {
        Some(v) => {
            state.registers.set(args.rd(), v);
            state.registers.pc = state.registers.pc.wrapping_add(4);
            Ok(())
        },
        None => Err(Trap::IllegalOpcode),
    }
}

/// Load upper immediate: rd receives the U-immediate (upper 20 bits of the
/// word, low 12 bits zero).
fn lui(state: &mut CpuState, instruction: u32)
    requires
        old(state).wf(),
    ensures
        final(state).wf(),
        final(state).registers.csrs == old(state).registers.csrs,
        final(state).registers@ == wr(
            old(state).registers@,
            spec_rd(instruction),
            instruction & 0xFFFF_F000,
        ),
        final(state).registers.pc == u32_specs::wrapping_add(old(state).registers.pc, 4),
{
    let args = OpArgs { instruction };
    state.registers.set(args.rd(), instruction & 0xFFFF_F000);
    state.registers.pc = state.registers.pc.wrapping_add(4);
}

/// Add upper immediate to PC: rd receives PC plus the U-immediate.
fn auipc(state: &mut CpuState, instruction: u32)
    requires
        old(state).wf(),
    ensures
        final(state).wf(),
        final(state).registers.csrs == old(state).registers.csrs,
        final(state).registers@ == wr(
            old(state).registers@,
            spec_rd(instruction),
            u32_specs::wrapping_add(old(state).registers.pc, instruction & 0xFFFF_F000),
        ),
        final(state).registers.pc == u32_specs::wrapping_add(old(state).registers.pc, 4),
{
    let args = OpArgs { instruction };
    let v = state.registers.pc.wrapping_add(instruction & 0xFFFF_F000);
    state.registers.set(args.rd(), v);
    state.registers.pc = state.registers.pc.wrapping_add(4);
}

/// Jump and link: rd receives PC + 4 and PC moves by the J-immediate; a
/// misaligned target traps before any state changes.
fn jal(state: &mut CpuState, instruction: u32) -> (r: Result<(), Trap>)
    requires
        old(state).wf(),
    ensures
        final(state).wf(),
        final(state).registers.csrs == old(state).registers.csrs,
        ({
            let target = u32_specs::wrapping_add_signed(
                old(state).registers.pc,
                spec_j_imm(instruction),
            );
            if target & 3 != 0 {
                r == Err::<(), Trap>(Trap::UnalignedInstructionAddress) && *final(state) == *old(state)
            } else {
                r is Ok && final(state).registers@ == wr(
                    old(state).registers@,
                    spec_rd(instruction),
                    u32_specs::wrapping_add(old(state).registers.pc, 4),
                ) && final(state).registers.pc == target
            }
        }),
{
    let args = OpArgs { instruction };
    let target = state.registers.pc.wrapping_add_signed(args.j_imm());
    if target & 3 != 0 {
        return Err(Trap::UnalignedInstructionAddress);
    }
    let link = state.registers.pc.wrapping_add(4);
    state.registers.set(args.rd(), link);
    state.registers.pc = target;
    Ok(())
}

/// Indirect jump and link: PC becomes rs1 plus the I-immediate with bit 0
/// cleared, rd receives the old PC + 4.  The rd write uses the old PC and
/// the jump the original rs1, also when rd equals rs1.
fn jalr(state: &mut CpuState, instruction: u32) -> (r: Result<(), Trap>)
    requires
        old(state).wf(),
    ensures
        final(state).wf(),
        final(state).registers.csrs == old(state).registers.csrs,
        ({
            let a = old(state).registers@[spec_rs1(instruction) as int];
            let target = u32_specs::wrapping_add_signed(a, spec_i_imm(instruction)) & 0xFFFF_FFFE;
            if target & 3 != 0 {
                r == Err::<(), Trap>(Trap::UnalignedInstructionAddress) && *final(state) == *old(state)
            } else {
                r is Ok && final(state).registers@ == wr(
                    old(state).registers@,
                    spec_rd(instruction),
                    u32_specs::wrapping_add(old(state).registers.pc, 4),
                ) && final(state).registers.pc == target
            }
        }),
{
    let args = OpArgs { instruction };
    let a = state.registers.get(args.rs1());
    let target = a.wrapping_add_signed(args.i_imm()) & 0xFFFF_FFFE;
    if target & 3 != 0 {
        return Err(Trap::UnalignedInstructionAddress);
    }
    let link = state.registers.pc.wrapping_add(4);
    state.registers.set(args.rd(), link);
    state.registers.pc = target;
    Ok(())
}

/// Conditional branches: compare rs1 and rs2 under funct3; a taken branch
/// moves PC by the B-immediate, an untaken one by 4.
fn branch(state: &mut CpuState, instruction: u32) -> (r: Result<(), Trap>)
    requires
        old(state).wf(),
        spec_opcode(instruction) == opcodes::BRANCH,
    ensures
        final(state).wf(),
        final(state).registers.csrs == old(state).registers.csrs,
        final(state).registers@ == old(state).registers@,
        ({
            let a = old(state).registers@[spec_rs1(instruction) as int];
            let b = old(state).registers@[spec_rs2(instruction) as int];
            match branch_taken(spec_funct3(instruction), a, b) {
                Some(c) => r is Ok && final(state).registers.pc == (if c {
                    u32_specs::wrapping_add_signed(
                        old(state).registers.pc,
                        spec_b_imm(instruction),
                    )
                } else {
                    u32_specs::wrapping_add(old(state).registers.pc, 4)
                }),
                None => r == Err::<(), Trap>(Trap::IllegalOpcode) && *final(state) == *old(state),
            }
        }),
{
    let args = OpArgs { instruction };
    let a = state.registers.get(args.rs1());
    let b = state.registers.get(args.rs2());
    match branch_taken_exec(args.funct3(), a, b) {
        Some(c) => {
            if c {
                state.registers.pc = state.registers.pc.wrapping_add_signed(args.b_imm());
            } else {
                state.registers.pc = state.registers.pc.wrapping_add(4);
            }
            Ok(())
        },
        None => Err(Trap::IllegalOpcode),
    }
}

/// Loads: rd receives the (sign- or zero-extended) value at rs1 plus the
/// I-immediate; an out-of-bounds access traps as a memory access violation.
fn load(state: &mut CpuState, memory: &Memory, instruction: u32) -> (r: Result<(), Trap>)
    requires
        old(state).wf(),
        spec_opcode(instruction) == opcodes::LOAD,
    ensures
        final(state).wf(),
        final(state).registers.csrs == old(state).registers.csrs,
        ({
            let a = old(state).registers@[spec_rs1(instruction) as int];
            let ea = u32_specs::wrapping_add_signed(a, spec_i_imm(instruction));
            match load_result(memory@, spec_funct3(instruction), ea) {
                Ok(v) => r is Ok && final(state).registers@ == wr(
                    old(state).registers@,
                    spec_rd(instruction),
                    v,
                ) && final(state).registers.pc == u32_specs::wrapping_add(old(state).registers.pc, 4),
                Err(t) => r == Err::<(), Trap>(t) && *final(state) == *old(state),
            }
        }),
{
    let args = OpArgs { instruction };
    let a = state.registers.get(args.rs1());
    let f3 = args.funct3();
    let ea = a.wrapping_add_signed(args.i_imm()) as usize;
    let value: u32 = if f3 == funct3::LB {
        match memory.get8(ea) {
            Ok(b) => sign_extend_byte_32(b),
            Err(_) => {
                return Err(Trap::MemoryAccessViolation);
            },
        }
    } else if f3 == funct3::LH {
        match memory.get16(ea) {
            Ok(h) => sign_extend_half_32(h),
            Err(_) => {
                return Err(Trap::MemoryAccessViolation);
            },
        }
    } else if f3 == funct3::LW {
        match memory.get32(ea) {
            Ok(w) => w,
            Err(_) => {
                return Err(Trap::MemoryAccessViolation);
            },
        }
    } else if f3 == funct3::LBU {
        match memory.get8(ea) {
            Ok(b) => b as u32,
            Err(_) => {
                return Err(Trap::MemoryAccessViolation);
            },
        }
    } else if f3 == funct3::LHU {
        match memory.get16(ea) {
            Ok(h) => h as u32,
            Err(_) => {
                return Err(Trap::MemoryAccessViolation);
            },
        }
    } else {
        return Err(Trap::IllegalOpcode);
    };
    state.registers.set(args.rd(), value);
    state.registers.pc = state.registers.pc.wrapping_add(4);
    Ok(())
}

/// Stores: the low bytes of rs2 go to rs1 plus the S-immediate.  The bounds
/// are checked before any byte is written, so a trapping store leaves the
/// memory unchanged.
fn store(state: &mut CpuState, memory: &mut Memory, instruction: u32) -> (r: Result<(), Trap>)
    requires
        old(state).wf(),
        spec_opcode(instruction) == opcodes::STORE,
    ensures
        final(state).wf(),
        final(state).registers.csrs == old(state).registers.csrs,
        final(state).registers@ == old(state).registers@,
        ({
            let a = old(state).registers@[spec_rs1(instruction) as int];
            let b = old(state).registers@[spec_rs2(instruction) as int];
            let ea = u32_specs::wrapping_add_signed(a, spec_s_imm(instruction));
            match store_result(old(memory)@, spec_funct3(instruction), ea, b) {
                Ok(m2) => r is Ok && final(memory)@ == m2 && final(state).registers.pc == u32_specs::wrapping_add(
                    old(state).registers.pc,
                    4,
                ),
                Err(t) => r == Err::<(), Trap>(t) && final(memory)@ == old(memory)@ && *final(state)
                    == *old(state),
            }
        }),
{
    let args = OpArgs { instruction };
    let a = state.registers.get(args.rs1());
    let b = state.registers.get(args.rs2());
    let f3 = args.funct3();
    let ea = a.wrapping_add_signed(args.s_imm()) as usize;
    let wrote: Result<(), crate::memory::MemoryError> = if f3 == funct3::SB {
        memory.set8(ea, b as u8)
    } else if f3 == funct3::SH {
        memory.set16(ea, b as u16)
    } else if f3 == funct3::SW {
        memory.set32(ea, b)
    } else {
        return Err(Trap::IllegalOpcode);
    };
    match wrote {
        Ok(()) => {
            state.registers.pc = state.registers.pc.wrapping_add(4);
            Ok(())
        },
        Err(_) => Err(Trap::MemoryAccessViolation),
    }
}

/// Fences execute as no-ops that advance PC by 4: a single hart with no
/// instruction cache needs no ordering work.
fn fence(state: &mut CpuState, instruction: u32)
    requires
        old(state).wf(),
    ensures
        final(state).wf(),
        final(state).registers.csrs == old(state).registers.csrs,
        final(state).registers@ == old(state).registers@,
        final(state).registers.pc == u32_specs::wrapping_add(old(state).registers.pc, 4),
{
    let _ = instruction;
    state.registers.pc = state.registers.pc.wrapping_add(4);
}

/// The new CSR value under funct3: write, set bits, or clear bits.
fn csr_new_value_exec(f3: u8, oldv: u32, src: u32) -> (r: u32)
    ensures
        r == csr_new_value(f3, oldv, src),
{
    if f3 == funct3::CSRRW || f3 == funct3::CSRRWI {
        src
    } else if f3 == funct3::CSRRS || f3 == funct3::CSRRSI {
        oldv | src
    } else {
        oldv & !src
    }
}

/// Zicsr instructions: read and modify a CSR under the funct3 rules.  The
/// write is skipped when the encoded source is zero (CSRRS/CSRRC families),
/// the read when the destination is zero, so probes of the read-only
/// counters do not trap.
fn system_csr(state: &mut CpuState, instruction: u32, Ghost(pre): Ghost<ArchView>) -> (r: Result<
    (),
    Trap,
>)
    requires
        old(state).wf(),
        spec_opcode(instruction) == opcodes::SYSTEM,
        spec_funct3(instruction) != funct3::ECALL_OR_EBREAK,
        pre.regs == old(state).registers@,
        pre.rdcycle == old(state).registers.csrs.rdcycle,
        pre.rdtime == old(state).registers.csrs.rdtime,
        pre.instret == old(state).registers.csrs.instret,
        pre.test == old(state).registers.csrs.test,
    ensures
        final(state).wf(),
        final(state).registers.csrs.rdcycle == old(state).registers.csrs.rdcycle,
        final(state).registers.csrs.rdtime == old(state).registers.csrs.rdtime,
        final(state).registers.csrs.instret == old(state).registers.csrs.instret,
        match csr_step(pre, instruction) {
            Ok((regs2, test2)) => r is Ok && final(state).registers@ == regs2
                && final(state).registers.csrs.test == test2 && final(state).registers.pc
                == u32_specs::wrapping_add(old(state).registers.pc, 4),
            Err(t) => r == Err::<(), Trap>(t) && *final(state) == *old(state),
        },
{
    let args = OpArgs { instruction };
    let f3 = args.funct3();
    let rdix = args.rd();
    let rs1f = args.rs1();
    let addr = (instruction >> 20u32) as usize;
    if f3 == 4 {
        return Err(Trap::IllegalOpcode);
    }
    let src = if f3 == funct3::CSRRWI || f3 == funct3::CSRRSI || f3 == funct3::CSRRCI {
        rs1f as u32
    } else {
        state.registers.get(rs1f)
    };
    let writes = f3 == funct3::CSRRW || f3 == funct3::CSRRWI || rs1f != 0;
    let mut oldv: u32 = 0;
    if rdix != 0 || writes {
        match state.registers.csrs.get(addr) {
            Ok(v) => {
                oldv = v;
            },
            Err(_) => {
                return Err(Trap::IllegalCsrAccess);
            },
        }
    }
    if writes {
        let newv = csr_new_value_exec(f3, oldv, src);
        match state.registers.csrs.set(addr, newv) {
            Ok(()) => {},
            Err(_) => {
                return Err(Trap::IllegalCsrAccess);
            },
        }
    }
    if rdix != 0 {
        state.registers.set(rdix, oldv);
    }
    state.registers.pc = state.registers.pc.wrapping_add(4);
    Ok(())
}

/// Dispatch one non-ECALL instruction and, on success, advance the cycle and
/// retired-instruction counters by one.
pub(crate) fn dispatch_and_count(state: &mut CpuState, memory: &mut Memory, instruction: u32) -> (r:
    Result<(), Trap>)
    requires
        old(state).wf(),
        !is_ecall(instruction),
    ensures
        final(state).wf(),
        match spec_step(arch_view(*old(state), *old(memory)), instruction) {
            SpecStep::Next(s2) => r is Ok && arch_view(*final(state), *final(memory)) == s2,
            SpecStep::Trapped(t) => r == Err::<(), Trap>(t),
            SpecStep::EnvCall => false,
        },
{
    let ghost pre = arch_view(*state, *memory);
    let op = decoder::opcode(instruction);
    let f3 = decoder::funct3(instruction);
    let r: Result<(), Trap> = if op == opcodes::OP {
        self::op(state, instruction)
    } else if op == opcodes::OP_IMM {
        op_imm(state, instruction)
    } else if op == opcodes::JAL {
        jal(state, instruction)
    } else if op == opcodes::JALR {
        jalr(state, instruction)
    } else if op == opcodes::LUI {
        lui(state, instruction);
        Ok(())
    } else if op == opcodes::AUIPC {
        auipc(state, instruction);
        Ok(())
    } else if op == opcodes::BRANCH {
        branch(state, instruction)
    } else if op == opcodes::LOAD {
        load(state, memory, instruction)
    } else if op == opcodes::STORE {
        store(state, memory, instruction)
    } else if op == opcodes::FENCE {
        fence(state, instruction);
        Ok(())
    } else if op == opcodes::SYSTEM {
        if f3 == funct3::ECALL_OR_EBREAK {
            // Not an ECALL here: the caller keeps those for the hook.
            if instruction >> 20u32 == 1 {
                Err(Trap::DebugBreakpoint)
            } else {
                Err(Trap::IllegalOpcode)
            }
        } else {
            system_csr(state, instruction, Ghost(pre))
        }
    } else {
        Err(Trap::IllegalOpcode)
    };
    match r {
        Ok(()) => {
            state.registers.csrs.rdcycle = state.registers.csrs.rdcycle.wrapping_add(1);
            state.registers.csrs.instret = state.registers.csrs.instret.wrapping_add(1);
            proof {
                assert(match spec_step(pre, instruction) {
                    SpecStep::Next(s2) => arch_view(*state, *memory) =~= s2,
                    SpecStep::Trapped(t) => false,
                    SpecStep::EnvCall => false,
                });
            }
            Ok(())
        },
        Err(t) => Err(t),
    }
}

/// Finish a successful environment call: PC advances by 4 and the cycle and
/// retired-instruction counters advance by one; the registers, the scratch
/// CSR, the time counter and the memory are untouched.
pub fn retire_environment_call(state: &mut CpuState)
    ensures
        old(state).wf() ==> final(state).wf(),
        final(state).registers@ == old(state).registers@,
        final(state).registers.pc == u32_specs::wrapping_add(old(state).registers.pc, 4),
        final(state).registers.csrs.rdcycle == u64_specs::wrapping_add(old(state).registers.csrs.rdcycle, 1),
        final(state).registers.csrs.instret == u64_specs::wrapping_add(old(state).registers.csrs.instret, 1),
        final(state).registers.csrs.rdtime == old(state).registers.csrs.rdtime,
        final(state).registers.csrs.test == old(state).registers.csrs.test,
{
    state.registers.pc = state.registers.pc.wrapping_add(4);
    state.registers.csrs.rdcycle = state.registers.csrs.rdcycle.wrapping_add(1);
    state.registers.csrs.instret = state.registers.csrs.instret.wrapping_add(1);
}

/// The RV32I instruction set: a stateless dispatcher over the architectural
/// state.
pub struct InstructionSet {}

impl InstructionSet {
    /// Create the dispatcher.
    pub fn new() -> (r: Self)
        ensures
            r == (InstructionSet {  }),
    {
        InstructionSet {  }
    }

    /// Execute one instruction word: sample the wall clock into the time
    /// counter, dispatch, and on success advance the counters.  An ECALL
    /// invokes `handler` with the current state and memory and then
    /// retires; the hook may change the state at will, so nothing is
    /// promised of that case beyond what the handler does.
    pub fn step<H: EcallHandler>(
        &self,
        cpu_state: &mut CpuState,
        memory: &mut Memory,
        instruction: u32,
        handler: &mut H,
    ) -> (r: Result<(), Trap>)
        requires
            old(cpu_state).wf(),
        ensures
            !is_ecall(instruction) ==> final(cpu_state).wf(),
            exists|t: u64|
                #[trigger] step_behavior(
                    arch_view(*old(cpu_state), *old(memory)).with_time(t),
                    instruction,
                    arch_view(*final(cpu_state), *final(memory)),
                    r,
                ),
    {
        let now = sample_wall_clock(cpu_state);
        let ghost pre = arch_view(*cpu_state, *memory);
        proof {
            assert(arch_view(*old(cpu_state), *old(memory)).with_time(now) =~= pre);
        }
        let op = decoder::opcode(instruction);
        let f3 = decoder::funct3(instruction);
        if op == opcodes::SYSTEM && f3 == funct3::ECALL_OR_EBREAK && instruction >> 20u32 == 0 {
            let hr = handler.on_ecall(cpu_state, memory);
            let r: Result<(), Trap> = match hr {
                Ok(()) => {
                    retire_environment_call(cpu_state);
                    Ok(())
                },
                Err(t) => Err(t),
            };
            proof {
                assert(spec_step(pre, instruction) is EnvCall);
                assert(step_behavior(pre, instruction, arch_view(*cpu_state, *memory), r));
            }
            r
        } else {
            let r = dispatch_and_count(cpu_state, memory, instruction);
            proof {
                assert(step_behavior(pre, instruction, arch_view(*cpu_state, *memory), r));
            }
            r
        }
    }
}

} // verus!
