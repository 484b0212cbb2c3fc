//! Constructors for every RV32I instruction, and the encoder that turns a
//! constructed instruction into its 32-bit word.
//!
//! `Instruction::encode` is specified against the decoders: for every legal
//! instruction, the field extractors and immediate decoders applied to the
//! encoded word return exactly the values the instruction was built from
//! (`Instruction::encodes`).

use vstd::prelude::*;

use super::decoder::{
    spec_b_imm, spec_funct3, spec_funct7, spec_i_imm, spec_j_imm, spec_opcode, spec_rd, spec_rs1,
    spec_rs2, spec_s_imm, spec_u_imm,
};
use super::funct3::{
    ADDI, ADD_OR_SUB, AND, ANDI, BEQ, BGE, BGEU, BLT, BLTU, BNE, CSRRC, CSRRCI, CSRRS, CSRRSI,
    CSRRW, CSRRWI, LB, LBU, LH, LHU, LW, OR, ORI, SB, SH, SLL, SLLI, SLT, SLTI, SLTIU, SLTU, SRL_OR_SRA,
    SRLI_OR_SRAI, SW, XOR, XORI,
};
use super::opcodes::{AUIPC, BRANCH, FENCE, JAL, JALR, LOAD, LUI, OP, OP_IMM, STORE, SYSTEM};

verus! {

/// Pack a signed 12-bit value into the low 12 bits of a `u16`, two's
/// complement.
pub(crate) fn convert_i16_to_i12(value: i16) -> (r: u16)
    requires
        -2048 <= value <= 2047,
    ensures
        r < 4096,
        r == (if value >= 0 {
            value as int
        } else {
            value + 4096
        }),
{
    proof {
        assert((value as u16) & 0xFFF == (if value >= 0 {
            value as int
        } else {
            value + 4096
        }) && (value as u16) & 0xFFF < 4096) by (bit_vector)
            requires
                -2048 <= value <= 2047,
        ;
    }
    (value as u16) & 0xFFF
}

/// Assemble an I-type word: opcode, rd, funct3, rs1, and a raw 12-bit
/// immediate field.
fn i_type_opcode(opcode: u8, destination_register: usize, source_register: usize, funct3: u8, imm: u16) -> (r: u32)
    requires
        opcode <= 0x7F,
        destination_register <= 31,
        source_register <= 31,
        funct3 <= 7,
        imm <= 0xFFF,
    ensures
        spec_opcode(r) == opcode,
        spec_rd(r) as usize == destination_register,
        spec_funct3(r) == funct3,
        spec_rs1(r) as usize == source_register,
        r >> 20 == imm,
        spec_i_imm(r) as int == (if imm < 2048 {
            imm as int
        } else {
            imm - 4096
        }),
{
    let op32 = opcode as u32;
    let rd32 = destination_register as u32;
    let rs32 = source_register as u32;
    let f332 = funct3 as u32;
    let imm32 = imm as u32;
    let r = op32 | (rd32 << 7u32) | (f332 << 12u32) | (rs32 << 15u32) | (imm32 << 20u32);
    proof {
        assert({
            let w = op32 | (rd32 << 7u32) | (f332 << 12u32) | (rs32 << 15u32) | (imm32 << 20u32);
            &&& (w >> 0) & 0x7F == op32
            &&& (w >> 7) & 0x1F == rd32
            &&& (w >> 12) & 0x7 == f332
            &&& (w >> 15) & 0x1F == rs32
            &&& w >> 20 == imm32
            &&& ((((w >> 20) & 0x7FF) & (((1u32 << 11) - 1) as u32) | (if ((w >> 0) & 0x8000_0000)
                != 0 {
                !(((1u32 << 11) - 1) as u32)
            } else {
                0u32
            })) as i32) as int == (if imm32 < 2048 {
                imm32 as int
            } else {
                imm32 - 4096
            })
        }) by (bit_vector)
            requires
                op32 <= 0x7F,
                rd32 <= 31,
                rs32 <= 31,
                f332 <= 7,
                imm32 <= 0xFFF,
        ;
    }
    r
}

/// Assemble an R-type word: opcode, rd, funct3, rs1, rs2 and funct7.
fn op_opcode(
    opcode: u8,
    destination_register: usize,
    source_register1: usize,
    source_register2: usize,
    funct3: u8,
    funct7: u8,
) -> (r: u32)
    requires
        opcode <= 0x7F,
        destination_register <= 31,
        source_register1 <= 31,
        source_register2 <= 31,
        funct3 <= 7,
        funct7 <= 0x7F,
    ensures
        spec_opcode(r) == opcode,
        spec_rd(r) as usize == destination_register,
        spec_funct3(r) == funct3,
        spec_rs1(r) as usize == source_register1,
        spec_rs2(r) as usize == source_register2,
        spec_funct7(r) == funct7,
{
    let op32 = opcode as u32;
    let rd32 = destination_register as u32;
    let rs132 = source_register1 as u32;
    let rs232 = source_register2 as u32;
    let f332 = funct3 as u32;
    let f732 = funct7 as u32;
    let r = op32 | (rd32 << 7u32) | (f332 << 12u32) | (rs132 << 15u32) | (rs232 << 20u32) | (f732
        << 25u32);
    proof {
        assert({
            let w = op32 | (rd32 << 7u32) | (f332 << 12u32) | (rs132 << 15u32) | (rs232 << 20u32)
                | (f732 << 25u32);
            &&& (w >> 0) & 0x7F == op32
            &&& (w >> 7) & 0x1F == rd32
            &&& (w >> 12) & 0x7 == f332
            &&& (w >> 15) & 0x1F == rs132
            &&& (w >> 20) & 0x1F == rs232
            &&& (w >> 25) & 0x7F == f732
        }) by (bit_vector)
            requires
                op32 <= 0x7F,
                rd32 <= 31,
                rs132 <= 31,
                rs232 <= 31,
                f332 <= 7,
                f732 <= 0x7F,
        ;
    }
    r
}

/// Assemble a U-type word: opcode, rd, and the upper 20 bits of `value`.
fn u_type_opcode(opcode: u8, destination_register: usize, value: u32) -> (r: u32)
    requires
        opcode <= 0x7F,
        destination_register <= 31,
        value & 0xFFF == 0,
    ensures
        spec_opcode(r) == opcode,
        spec_rd(r) as usize == destination_register,
        r & 0xFFFF_F000 == value,
        spec_u_imm(r) == value as i32,
        r >> 12 == value >> 12,
{
    let op32 = opcode as u32;
    let rd32 = destination_register as u32;
    let r = value | (rd32 << 7u32) | op32;
    proof {
        assert({
            let w = value | (rd32 << 7u32) | op32;
            &&& (w >> 0) & 0x7F == op32
            &&& (w >> 7) & 0x1F == rd32
            &&& w & 0xFFFF_F000 == value
            &&& w >> 12 == value >> 12
        }) by (bit_vector)
            requires
                op32 <= 0x7F,
                rd32 <= 31,
                value & 0xFFF == 0,
        ;
    }
    r
}

/// Construct a load-upper-immediate word (`value` must have its low 12 bits
/// clear).
fn encode_lui(destination_register: usize, value: u32) -> (r: u32)
    requires
        destination_register <= 31,
        value & 0xFFF == 0,
    ensures
        spec_opcode(r) == LUI,
        spec_rd(r) as usize == destination_register,
        r & 0xFFFF_F000 == value,
        spec_u_imm(r) == value as i32,
        r >> 12 == value >> 12,
{
    u_type_opcode(LUI, destination_register, value)
}

/// Construct an add-upper-immediate-to-PC word (`value` must have its low 12
/// bits clear).
fn encode_auipc(destination_register: usize, value: u32) -> (r: u32)
    requires
        destination_register <= 31,
        value & 0xFFF == 0,
    ensures
        spec_opcode(r) == AUIPC,
        spec_rd(r) as usize == destination_register,
        r & 0xFFFF_F000 == value,
        spec_u_imm(r) == value as i32,
        r >> 12 == value >> 12,
{
    u_type_opcode(AUIPC, destination_register, value)
}

/// Scatter a 21-bit signed jump offset (LSB zero) into the J-type immediate
/// bits [31:12] of an instruction word.
fn encode_j_type_immediate(offset: i32) -> (r: u32)
    requires
        -1048576 <= offset <= 1048574,
        offset % 2 == 0,
    ensures
        r == ({
            let v = offset as u32;
            ((v >> 31) << 31) | (((v & 0xFF000) >> 12) << 12) | (((v & 0x800) >> 11) << 20) | (((v
                & 0x7FE) >> 1) << 21)
        }),
{
    let value = offset as u32;
    let bit_twenty = value >> 31u32;
    let bits_19_to_12 = (value & 0xFF000) >> 12u32;
    let bit_eleven = (value & 0x800) >> 11u32;
    let bits_ten_to_one = (value & 0x7FE) >> 1u32;
    (bit_twenty << 31u32) | (bits_19_to_12 << 12u32) | (bit_eleven << 20u32) | (bits_ten_to_one
        << 21u32)
}

/// Construct a jump-and-link word from a signed even 21-bit offset and a
/// destination register.
fn encode_jal(address_offset: i32, destination_register: usize) -> (r: u32)
    requires
        destination_register <= 31,
        -1048576 <= address_offset <= 1048574,
        address_offset % 2 == 0,
    ensures
        spec_opcode(r) == JAL,
        spec_rd(r) as usize == destination_register,
        spec_j_imm(r) == address_offset,
{
    let rd32 = destination_register as u32;
    let imm_bits = encode_j_type_immediate(address_offset);
    let r = imm_bits | (rd32 << 7u32) | (JAL as u32);
    proof {
        assert({
            let v = address_offset as u32;
            let w = (((v >> 31) << 31) | (((v & 0xFF000) >> 12) << 12) | (((v & 0x800) >> 11)
                << 20) | (((v & 0x7FE) >> 1) << 21)) | (rd32 << 7u32) | 0x6Fu32;
            &&& (w >> 0) & 0x7F == 0x6F
            &&& (w >> 7) & 0x1F == rd32
            &&& ((((((w >> 12) & 0xFF) << 12) | (((w >> 20) & 1) << 11) | (((w >> 21) & 0x3FF)
                << 1)) & (((1u32 << 20) - 1) as u32) | (if (w & 0x8000_0000) != 0 {
                !(((1u32 << 20) - 1) as u32)
            } else {
                0u32
            })) as i32) == address_offset
        }) by (bit_vector)
            requires
                rd32 <= 31,
                -1048576 <= address_offset <= 1048574,
                address_offset % 2 == 0,
        ;
    }
    r
}

/// Scatter a 13-bit signed branch offset (LSB zero) into the B-type immediate
/// bits of an instruction word.
fn encode_b_type_immediate(value: i16) -> (r: u32)
    requires
        -4096 <= value <= 4094,
        value % 2 == 0,
    ensures
        r == ({
            let v = ((value as u16) & 0x1FFF) as u32 >> 1;
            ((v & 0x800) >> 11 << 31) | ((v & 0x400) >> 10 << 7) | ((v & 0xF) << 8) | ((v & 0x3F0)
                >> 4 << 25)
        }),
{
    // The input is 13 bits compressed into 12 (the LSB is zero).
    let v = (((value as u16) & 0x1FFF) as u32) >> 1u32;
    let bit_twelve = (v & 0x800) >> 11u32;
    let bit_eleven = (v & 0x400) >> 10u32;
    let bits_ten_to_five = (v & 0x3F0) >> 4u32;
    let lower_four_bits = v & 0xF;
    (bit_twelve << 31u32) | (bit_eleven << 7u32) | (lower_four_bits << 8u32) | (bits_ten_to_five
        << 25u32)
}

/// Construct a branch word from a funct3 selector, two source registers and a
/// signed even 13-bit offset.
fn encode_branch(funct3: u8, source_register1: usize, source_register2: usize, branch_offset: i16) -> (r: u32)
    requires
        funct3 <= 7,
        source_register1 <= 31,
        source_register2 <= 31,
        -4096 <= branch_offset <= 4094,
        branch_offset % 2 == 0,
    ensures
        spec_opcode(r) == BRANCH,
        spec_funct3(r) == funct3,
        spec_rs1(r) as usize == source_register1,
        spec_rs2(r) as usize == source_register2,
        spec_b_imm(r) == branch_offset,
{
    let f332 = funct3 as u32;
    let rs132 = source_register1 as u32;
    let rs232 = source_register2 as u32;
    let imm_bits = encode_b_type_immediate(branch_offset);
    let r = (BRANCH as u32) | (f332 << 12u32) | (rs132 << 15u32) | (rs232 << 20u32) | imm_bits;
    proof {
        assert({
            let v = ((branch_offset as u16) & 0x1FFF) as u32 >> 1;
            let w = 0x63u32 | (f332 << 12u32) | (rs132 << 15u32) | (rs232 << 20u32) | (((v & 0x800)
                >> 11 << 31) | ((v & 0x400) >> 10 << 7) | ((v & 0xF) << 8) | ((v & 0x3F0) >> 4
                << 25));
            &&& (w >> 0) & 0x7F == 0x63
            &&& (w >> 12) & 0x7 == f332
            &&& (w >> 15) & 0x1F == rs132
            &&& (w >> 20) & 0x1F == rs232
            &&& (((((w >> 7) & 1) << 11) | (((w >> 25) & 0x3F) << 5) | (((w >> 8) & 0xF) << 1)) & ((
            (1u32 << 12) - 1) as u32) | (if (w & 0x8000_0000) != 0 {
                !(((1u32 << 12) - 1) as u32)
            } else {
                0u32
            })) as i32 == branch_offset
        }) by (bit_vector)
            requires
                f332 <= 7,
                rs132 <= 31,
                rs232 <= 31,
                -4096 <= branch_offset <= 4094,
                branch_offset % 2 == 0,
        ;
    }
    r
}

/// Construct a load word from a funct3 selector, destination and source
/// registers and a signed 12-bit offset.
fn encode_load(funct3: u8, destination_register: usize, source_register: usize, offset: i16) -> (r: u32)
    requires
        funct3 <= 7,
        destination_register <= 31,
        source_register <= 31,
        -2048 <= offset <= 2047,
    ensures
        spec_opcode(r) == LOAD,
        spec_funct3(r) == funct3,
        spec_rd(r) as usize == destination_register,
        spec_rs1(r) as usize == source_register,
        spec_i_imm(r) == offset,
{
    let imm = convert_i16_to_i12(offset);
    i_type_opcode(LOAD, destination_register, source_register, funct3, imm)
}

/// Construct a store word from a funct3 selector, two source registers and a
/// signed 12-bit offset.
fn encode_store(funct3: u8, source_register1: usize, source_register2: usize, offset: i16) -> (r: u32)
    requires
        funct3 <= 7,
        source_register1 <= 31,
        source_register2 <= 31,
        -2048 <= offset <= 2047,
    ensures
        spec_opcode(r) == STORE,
        spec_funct3(r) == funct3,
        spec_rs1(r) as usize == source_register1,
        spec_rs2(r) as usize == source_register2,
        spec_s_imm(r) == offset,
{
    let f332 = funct3 as u32;
    let rs132 = source_register1 as u32;
    let rs232 = source_register2 as u32;
    let off12 = convert_i16_to_i12(offset);
    let lower_5_bits = (off12 & 0x1F) as u32;
    let upper_7_bits = (off12 >> 5u32) as u32;
    let r = (STORE as u32) | (f332 << 12u32) | (rs132 << 15u32) | (rs232 << 20u32) | (lower_5_bits
        << 7u32) | (upper_7_bits << 25u32);
    proof {
        let off32 = off12 as u32;
        assert({
            let w = 0x23u32 | (f332 << 12u32) | (rs132 << 15u32) | (rs232 << 20u32) | ((off32
                & 0x1F) << 7u32) | ((off32 >> 5) << 25u32);
            &&& (w >> 0) & 0x7F == 0x23
            &&& (w >> 12) & 0x7 == f332
            &&& (w >> 15) & 0x1F == rs132
            &&& (w >> 20) & 0x1F == rs232
            &&& ((((((w >> 25) & 0x3F) << 5) | ((w >> 7) & 0x1F)) & (((1u32 << 11) - 1) as u32) | (
            if ((w >> 0) & 0x8000_0000) != 0 {
                !(((1u32 << 11) - 1) as u32)
            } else {
                0u32
            })) as i32) as int == (if off32 < 2048 {
                off32 as int
            } else {
                off32 - 4096
            })
        }) by (bit_vector)
            requires
                f332 <= 7,
                rs132 <= 31,
                rs232 <= 31,
                off32 < 4096,
        ;
        assert((off12 & 0x1F) as u32 == (off12 as u32) & 0x1F && (off12 >> 5) as u32 == (off12
            as u32) >> 5) by (bit_vector);
    }
    r
}

/// Construct a fence word: funct3 selects FENCE (0) or FENCE.I (1); `pred`
/// and `succ` are the predecessor and successor ordering sets.
fn encode_fence(funct3: u8, pred: u8, succ: u8) -> (r: u32)
    requires
        funct3 <= 1,
        pred <= 0xF,
        succ <= 0xF,
    ensures
        spec_opcode(r) == FENCE,
        spec_funct3(r) == funct3,
        spec_rd(r) == 0,
        spec_rs1(r) == 0,
        (r >> 24) & 0xF == pred,
        (r >> 20) & 0xF == succ,
        r >> 28 == 0,
{
    let f332 = funct3 as u32;
    let pred32 = pred as u32;
    let succ32 = succ as u32;
    let r = (FENCE as u32) | (f332 << 12u32) | (pred32 << 24u32) | (succ32 << 20u32);
    proof {
        assert({
            let w = 0x0Fu32 | (f332 << 12u32) | (pred32 << 24u32) | (succ32 << 20u32);
            &&& (w >> 0) & 0x7F == 0x0F
            &&& (w >> 12) & 0x7 == f332
            &&& (w >> 7) & 0x1F == 0
            &&& (w >> 15) & 0x1F == 0
            &&& (w >> 24) & 0xF == pred32
            &&& (w >> 20) & 0xF == succ32
            &&& w >> 28 == 0
        }) by (bit_vector)
            requires
                f332 <= 1,
                pred32 <= 0xF,
                succ32 <= 0xF,
        ;
    }
    r
}

/// Construct a SYSTEM word: funct3 selects the CSR operation (or, at zero,
/// ECALL/EBREAK), `csr` fills the 12-bit address field.
fn encode_csr(funct3: u8, csr: usize, destination_register: usize, source_register: usize) -> (r: u32)
    requires
        funct3 <= 7,
        csr <= 0xFFF,
        destination_register <= 31,
        source_register <= 31,
    ensures
        spec_opcode(r) == SYSTEM,
        spec_funct3(r) == funct3,
        spec_rd(r) as usize == destination_register,
        spec_rs1(r) as usize == source_register,
        r >> 20 == csr,
{
    i_type_opcode(SYSTEM, destination_register, source_register, funct3, csr as u16)
}

/// Construct an environment-call word.
fn encode_ecall() -> (r: u32)
    ensures
        spec_opcode(r) == SYSTEM,
        spec_funct3(r) == 0,
        spec_rd(r) == 0,
        spec_rs1(r) == 0,
        r >> 20 == 0,
{
    encode_csr(0, 0, 0, 0)
}

/// Construct a breakpoint word.
fn encode_ebreak() -> (r: u32)
    ensures
        spec_opcode(r) == SYSTEM,
        spec_funct3(r) == 0,
        spec_rd(r) == 0,
        spec_rs1(r) == 0,
        r >> 20 == 1,
{
    encode_csr(0, 1, 0, 0)
}

/// A constructed RV32I instruction, one variant per encoding shape.
#[derive(Clone, Copy, Debug)]
#[allow(inconsistent_fields)]
pub enum Instruction {
    /// Register-immediate ALU operation.
    OpImm { destination_register: usize, source_register: usize, funct3: u8, immediate: i16 },
    /// Register-register ALU operation.
    Op {
        destination_register: usize,
        source_register1: usize,
        source_register2: usize,
        funct3: u8,
        funct7: u8,
    },
    /// Load upper immediate.
    Lui { destination_register: usize, value: u32 },
    /// Add upper immediate to PC.
    Auipc { destination_register: usize, value: u32 },
    /// Jump and link.
    Jal { destination_register: usize, address_offset: i32 },
    /// Indirect jump and link.
    Jalr { destination_register: usize, source_register: usize, address_offset: i16 },
    /// Conditional branch.
    Branch { funct3: u8, source_register1: usize, source_register2: usize, branch_offset: i16 },
    /// Store.
    Store { funct3: u8, source_register1: usize, source_register2: usize, offset: i16 },
    /// Load.
    Load { funct3: u8, source_register: usize, destination_register: usize, offset: i16 },
    /// Memory fence.
    Fence { pred: u8, succ: u8 },
    /// Instruction-fetch fence.
    FenceI {},
    /// Environment call.
    ECall,
    /// Breakpoint.
    EBreak,
    /// CSR read and write.
    CsrRw { source_register: usize, destination_register: usize, csr: usize },
    /// CSR read and set bits.
    CsrRs { source_register: usize, destination_register: usize, csr: usize },
    /// CSR read and clear bits.
    CsrRc { source_register: usize, destination_register: usize, csr: usize },
    /// CSR read and write, immediate source.
    CsrRwi { source_register: usize, destination_register: usize, csr: usize },
    /// CSR read and set bits, immediate source.
    CsrRsi { source_register: usize, destination_register: usize, csr: usize },
    /// CSR read and clear bits, immediate source.
    CsrRci { source_register: usize, destination_register: usize, csr: usize },
}

impl Instruction {
    /// The constructor inputs are legal: register indices at most 31,
    /// immediates within their signed ranges, branch and jump offsets even,
    /// the low 12 bits of U-type values zero.
    pub open spec fn wf(self) -> bool {
        match self {
            Instruction::OpImm { destination_register, source_register, funct3, immediate } =>
                destination_register <= 31 && source_register <= 31 && funct3 <= 7 && -2048
                <= immediate <= 2047,
            Instruction::Op {
                destination_register,
                source_register1,
                source_register2,
                funct3,
                funct7,
            } => destination_register <= 31 && source_register1 <= 31 && source_register2 <= 31
                && funct3 <= 7 && funct7 <= 0x7F,
            Instruction::Lui { destination_register, value } => destination_register <= 31 && value
                & 0xFFF == 0,
            Instruction::Auipc { destination_register, value } => destination_register <= 31
                && value & 0xFFF == 0,
            Instruction::Jal { destination_register, address_offset } => destination_register <= 31
                && -1048576 <= address_offset <= 1048574 && address_offset % 2 == 0,
            Instruction::Jalr { destination_register, source_register, address_offset } =>
                destination_register <= 31 && source_register <= 31 && -2048 <= address_offset
                <= 2047,
            Instruction::Branch { funct3, source_register1, source_register2, branch_offset } =>
                funct3 <= 7 && source_register1 <= 31 && source_register2 <= 31 && -4096
                <= branch_offset <= 4094 && branch_offset % 2 == 0,
            Instruction::Store { funct3, source_register1, source_register2, offset } => funct3 <= 7
                && source_register1 <= 31 && source_register2 <= 31 && -2048 <= offset <= 2047,
            Instruction::Load { funct3, source_register, destination_register, offset } => funct3
                <= 7 && source_register <= 31 && destination_register <= 31 && -2048 <= offset
                <= 2047,
            Instruction::Fence { pred, succ } => pred <= 0xF && succ <= 0xF,
            Instruction::FenceI {  } => true,
            Instruction::ECall => true,
            Instruction::EBreak => true,
            Instruction::CsrRw { source_register, destination_register, csr } => source_register
                <= 31 && destination_register <= 31 && csr <= 0xFFF,
            Instruction::CsrRs { source_register, destination_register, csr } => source_register
                <= 31 && destination_register <= 31 && csr <= 0xFFF,
            Instruction::CsrRc { source_register, destination_register, csr } => source_register
                <= 31 && destination_register <= 31 && csr <= 0xFFF,
            Instruction::CsrRwi { source_register, destination_register, csr } => source_register
                <= 31 && destination_register <= 31 && csr <= 0xFFF,
            Instruction::CsrRsi { source_register, destination_register, csr } => source_register
                <= 31 && destination_register <= 31 && csr <= 0xFFF,
            Instruction::CsrRci { source_register, destination_register, csr } => source_register
                <= 31 && destination_register <= 31 && csr <= 0xFFF,
        }
    }

    /// The decoders applied to `w` return exactly the values this
    /// instruction was built from.  Together with `encode`'s postcondition
    /// this states that encoding followed by decoding is the identity on
    /// every legal input.
    pub open spec fn encodes(self, w: u32) -> bool {
        match self {
            Instruction::OpImm { destination_register, source_register, funct3, immediate } =>
                spec_opcode(w) == OP_IMM && spec_rd(w) as usize == destination_register
                && spec_funct3(w) == funct3 && spec_rs1(w) as usize == source_register && spec_i_imm(
                w,
            ) as int == immediate as int,
            Instruction::Op {
                destination_register,
                source_register1,
                source_register2,
                funct3,
                funct7,
            } => spec_opcode(w) == OP && spec_rd(w) as usize == destination_register && spec_funct3(
                w,
            ) == funct3 && spec_rs1(w) as usize == source_register1 && spec_rs2(w) as usize
                == source_register2 && spec_funct7(w) == funct7,
            Instruction::Lui { destination_register, value } => spec_opcode(w) == LUI && spec_rd(w)
                as usize == destination_register && w & 0xFFFF_F000 == value && spec_u_imm(w)
                == value as i32,
            Instruction::Auipc { destination_register, value } => spec_opcode(w) == AUIPC
                && spec_rd(w) as usize == destination_register && w & 0xFFFF_F000 == value
                && spec_u_imm(w) == value as i32,
            Instruction::Jal { destination_register, address_offset } => spec_opcode(w) == JAL
                && spec_rd(w) as usize == destination_register && spec_j_imm(w) == address_offset,
            Instruction::Jalr { destination_register, source_register, address_offset } =>
                spec_opcode(w) == JALR && spec_funct3(w) == 0 && spec_rd(w) as usize
                == destination_register && spec_rs1(w) as usize == source_register && spec_i_imm(w)
                as int == address_offset as int,
            Instruction::Branch { funct3, source_register1, source_register2, branch_offset } =>
                spec_opcode(w) == BRANCH && spec_funct3(w) == funct3 && spec_rs1(w) as usize
                == source_register1 && spec_rs2(w) as usize == source_register2 && spec_b_imm(w)
                as int == branch_offset as int,
            Instruction::Store { funct3, source_register1, source_register2, offset } =>
                spec_opcode(w) == STORE && spec_funct3(w) == funct3 && spec_rs1(w) as usize
                == source_register1 && spec_rs2(w) as usize == source_register2 && spec_s_imm(w)
                as int == offset as int,
            Instruction::Load { funct3, source_register, destination_register, offset } =>
                spec_opcode(w) == LOAD && spec_funct3(w) == funct3 && spec_rd(w) as usize
                == destination_register && spec_rs1(w) as usize == source_register && spec_i_imm(w)
                as int == offset as int,
            Instruction::Fence { pred, succ } => spec_opcode(w) == FENCE && spec_funct3(w) == 0
                && spec_rd(w) == 0 && spec_rs1(w) == 0 && (w >> 24) & 0xF == pred && (w >> 20) & 0xF
                == succ && w >> 28 == 0,
            Instruction::FenceI {  } => spec_opcode(w) == FENCE && spec_funct3(w) == 1 && spec_rd(w)
                == 0 && spec_rs1(w) == 0 && (w >> 24) & 0xF == 0 && (w >> 20) & 0xF == 0 && w >> 28
                == 0,
            Instruction::ECall => spec_opcode(w) == SYSTEM && spec_funct3(w) == 0 && spec_rd(w) == 0
                && spec_rs1(w) == 0 && w >> 20 == 0,
            Instruction::EBreak => spec_opcode(w) == SYSTEM && spec_funct3(w) == 0 && spec_rd(w)
                == 0 && spec_rs1(w) == 0 && w >> 20 == 1,
            Instruction::CsrRw { source_register, destination_register, csr } => spec_opcode(w)
                == SYSTEM && spec_funct3(w) == CSRRW && spec_rd(w) as usize == destination_register
                && spec_rs1(w) as usize == source_register && w >> 20 == csr,
            Instruction::CsrRs { source_register, destination_register, csr } => spec_opcode(w)
                == SYSTEM && spec_funct3(w) == CSRRS && spec_rd(w) as usize == destination_register
                && spec_rs1(w) as usize == source_register && w >> 20 == csr,
            Instruction::CsrRc { source_register, destination_register, csr } => spec_opcode(w)
                == SYSTEM && spec_funct3(w) == CSRRC && spec_rd(w) as usize == destination_register
                && spec_rs1(w) as usize == source_register && w >> 20 == csr,
            Instruction::CsrRwi { source_register, destination_register, csr } => spec_opcode(w)
                == SYSTEM && spec_funct3(w) == CSRRWI && spec_rd(w) as usize
                == destination_register && spec_rs1(w) as usize == source_register && w >> 20
                == csr,
            Instruction::CsrRsi { source_register, destination_register, csr } => spec_opcode(w)
                == SYSTEM && spec_funct3(w) == CSRRSI && spec_rd(w) as usize
                == destination_register && spec_rs1(w) as usize == source_register && w >> 20
                == csr,
            Instruction::CsrRci { source_register, destination_register, csr } => spec_opcode(w)
                == SYSTEM && spec_funct3(w) == CSRRCI && spec_rd(w) as usize
                == destination_register && spec_rs1(w) as usize == source_register && w >> 20
                == csr,
        }
    }

    /// Encode the instruction as its 32-bit word: exactly the bit pattern a
    /// conformant RV32I assembler would produce.
    pub fn encode(&self) -> (r: u32)
        requires
            self.wf(),
        ensures
            self.encodes(r),
    {
        match *self {
            Instruction::OpImm { destination_register, source_register, funct3, immediate } =>
                i_type_opcode(
                OP_IMM,
                destination_register,
                source_register,
                funct3,
                convert_i16_to_i12(immediate),
            ),
            Instruction::Op {
                destination_register,
                source_register1,
                source_register2,
                funct3,
                funct7,
            } => op_opcode(
                OP,
                destination_register,
                source_register1,
                source_register2,
                funct3,
                funct7,
            ),
            Instruction::Lui { destination_register, value } => encode_lui(
                destination_register,
                value,
            ),
            Instruction::Auipc { destination_register, value } => encode_auipc(
                destination_register,
                value,
            ),
            Instruction::Jal { address_offset, destination_register } => encode_jal(
                address_offset,
                destination_register,
            ),
            Instruction::Jalr { destination_register, source_register, address_offset } =>
                i_type_opcode(
                JALR,
                destination_register,
                source_register,
                0,
                convert_i16_to_i12(address_offset),
            ),
            Instruction::Branch {
                funct3,
                source_register1,
                source_register2,
                branch_offset,
            } => encode_branch(funct3, source_register1, source_register2, branch_offset),
            Instruction::Store { funct3, source_register1, source_register2, offset } =>
                encode_store(funct3, source_register1, source_register2, offset),
            Instruction::Load { funct3, source_register, destination_register, offset } =>
                encode_load(funct3, destination_register, source_register, offset),
            Instruction::Fence { pred, succ } => encode_fence(0, pred, succ),
            Instruction::FenceI {  } => encode_fence(1, 0, 0),
            Instruction::ECall => encode_ecall(),
            Instruction::EBreak => encode_ebreak(),
            Instruction::CsrRw { csr, source_register, destination_register } => encode_csr(
                CSRRW,
                csr,
                destination_register,
                source_register,
            ),
            Instruction::CsrRs { csr, source_register, destination_register } => encode_csr(
                CSRRS,
                csr,
                destination_register,
                source_register,
            ),
            Instruction::CsrRc { csr, source_register, destination_register } => encode_csr(
                CSRRC,
                csr,
                destination_register,
                source_register,
            ),
            Instruction::CsrRwi { csr, source_register, destination_register } => encode_csr(
                CSRRWI,
                csr,
                destination_register,
                source_register,
            ),
            Instruction::CsrRsi { csr, source_register, destination_register } => encode_csr(
                CSRRSI,
                csr,
                destination_register,
                source_register,
            ),
            Instruction::CsrRci { csr, source_register, destination_register } => encode_csr(
                CSRRCI,
                csr,
                destination_register,
                source_register,
            ),
        }
    }
}


/// Construct a register-immediate operation with an explicit funct3.
pub fn op_imm(destination_register: usize, source_register: usize, funct3: u8, immediate: i16) -> (r: Instruction)
    ensures
        r == (Instruction::OpImm { destination_register, source_register, funct3, immediate }),
{
    Instruction::OpImm { destination_register, source_register, funct3, immediate }
}

/// Construct an add-immediate instruction: add a signed 12-bit immediate to
/// rs1 and place the result in rd.
pub fn addi(destination_register: usize, source_register: usize, immediate: i16) -> (r: Instruction)
    ensures
        r == (Instruction::OpImm { destination_register, source_register, funct3: ADDI, immediate }),
{
    op_imm(destination_register, source_register, ADDI, immediate)
}

/// Construct a set-less-than-immediate (SLTI) instruction: rd becomes 1 if
/// rs1 is below the sign-extended immediate (signed), else 0.
pub fn slti(destination_register: usize, source_register: usize, imm: i16) -> (r: Instruction)
    ensures
        r == (Instruction::OpImm { destination_register, source_register, funct3: SLTI, immediate: imm }),
{
    op_imm(destination_register, source_register, SLTI, imm)
}

/// Construct a set-less-than-immediate-unsigned (SLTIU) instruction: the
/// immediate is sign extended and then compared unsigned.
pub fn sltiu(destination_register: usize, source_register: usize, imm: i16) -> (r: Instruction)
    ensures
        r == (Instruction::OpImm { destination_register, source_register, funct3: SLTIU, immediate: imm }),
{
    op_imm(destination_register, source_register, SLTIU, imm)
}

/// Construct an XORI: rd becomes the bitwise XOR of rs1 with the
/// sign-extended immediate.
pub fn xori(destination_register: usize, source_register: usize, imm: i16) -> (r: Instruction)
    ensures
        r == (Instruction::OpImm { destination_register, source_register, funct3: XORI, immediate: imm }),
{
    op_imm(destination_register, source_register, XORI, imm)
}

/// Construct an ORI: rd becomes the bitwise OR of rs1 with the sign-extended
/// immediate.
pub fn ori(destination_register: usize, source_register: usize, imm: i16) -> (r: Instruction)
    ensures
        r == (Instruction::OpImm { destination_register, source_register, funct3: ORI, immediate: imm }),
{
    op_imm(destination_register, source_register, ORI, imm)
}

/// Construct an ANDI: rd becomes the bitwise AND of rs1 with the
/// sign-extended immediate.
pub fn andi(destination_register: usize, source_register: usize, imm: i16) -> (r: Instruction)
    ensures
        r == (Instruction::OpImm { destination_register, source_register, funct3: ANDI, immediate: imm }),
{
    op_imm(destination_register, source_register, ANDI, imm)
}

/// Construct an SLLI: rd becomes rs1 shifted left by the immediate shift
/// amount.
pub fn slli(destination_register: usize, source_register: usize, imm: i16) -> (r: Instruction)
    requires
        0 <= imm <= 31,
    ensures
        r == (Instruction::OpImm { destination_register, source_register, funct3: SLLI, immediate: imm }),
{
    op_imm(destination_register, source_register, SLLI, imm)
}

/// Construct an SRLI: rd becomes rs1 shifted right logically by the immediate
/// shift amount.
pub fn srli(destination_register: usize, source_register: usize, imm: i16) -> (r: Instruction)
    requires
        0 <= imm <= 31,
    ensures
        r == (Instruction::OpImm {
            destination_register,
            source_register,
            funct3: SRLI_OR_SRAI,
            immediate: imm,
        }),
{
    op_imm(destination_register, source_register, SRLI_OR_SRAI, imm)
}

/// Construct an SRAI: rd becomes rs1 shifted right arithmetically by the
/// immediate shift amount.  The distinguishing funct7 bit is carried in the
/// immediate field.
pub fn srai(destination_register: usize, source_register: usize, imm: i16) -> (r: Instruction)
    requires
        0 <= imm <= 31,
    ensures
        r == (Instruction::OpImm {
            destination_register,
            source_register,
            funct3: SRLI_OR_SRAI,
            immediate: (1024 + imm) as i16,
        }),
{
    op_imm(destination_register, source_register, SRLI_OR_SRAI, 1024 + imm)
}

/// Construct a three-register (two sources and one destination) op
/// instruction.
pub fn op(
    destination_register: usize,
    source_register1: usize,
    source_register2: usize,
    funct3: u8,
    funct7: u8,
) -> (r: Instruction)
    ensures
        r == (Instruction::Op {
            destination_register,
            source_register1,
            source_register2,
            funct3,
            funct7,
        }),
{
    Instruction::Op { destination_register, source_register1, source_register2, funct3, funct7 }
}

/// Construct an add instruction: rd becomes rs1 + rs2.
pub fn add(destination_register: usize, source_register1: usize, source_register2: usize) -> (r: Instruction)
    ensures
        r == (Instruction::Op {
            destination_register,
            source_register1,
            source_register2,
            funct3: ADD_OR_SUB,
            funct7: 0,
        }),
{
    op(destination_register, source_register1, source_register2, ADD_OR_SUB, 0)
}

/// Construct a subtract instruction: rd becomes rs1 - rs2.
pub fn sub(destination_register: usize, source_register1: usize, source_register2: usize) -> (r: Instruction)
    ensures
        r == (Instruction::Op {
            destination_register,
            source_register1,
            source_register2,
            funct3: ADD_OR_SUB,
            funct7: 0x20,
        }),
{
    op(destination_register, source_register1, source_register2, ADD_OR_SUB, 0x20)
}

/// Construct a set-less-than of two registers (signed).
pub fn slt(destination_register: usize, source_register1: usize, source_register2: usize) -> (r: Instruction)
    ensures
        r == (Instruction::Op {
            destination_register,
            source_register1,
            source_register2,
            funct3: SLT,
            funct7: 0,
        }),
{
    op(destination_register, source_register1, source_register2, SLT, 0)
}

/// Construct a set-less-than of two registers (unsigned).
pub fn sltu(destination_register: usize, source_register1: usize, source_register2: usize) -> (r: Instruction)
    ensures
        r == (Instruction::Op {
            destination_register,
            source_register1,
            source_register2,
            funct3: SLTU,
            funct7: 0,
        }),
{
    op(destination_register, source_register1, source_register2, SLTU, 0)
}

/// Construct a bitwise and of two registers.
pub fn and(destination_register: usize, source_register1: usize, source_register2: usize) -> (r: Instruction)
    ensures
        r == (Instruction::Op {
            destination_register,
            source_register1,
            source_register2,
            funct3: AND,
            funct7: 0,
        }),
{
    op(destination_register, source_register1, source_register2, AND, 0)
}

/// Construct a bitwise or of two registers.
pub fn or(destination_register: usize, source_register1: usize, source_register2: usize) -> (r: Instruction)
    ensures
        r == (Instruction::Op {
            destination_register,
            source_register1,
            source_register2,
            funct3: OR,
            funct7: 0,
        }),
{
    op(destination_register, source_register1, source_register2, OR, 0)
}

/// Construct a bitwise xor of two registers.
pub fn xor(destination_register: usize, source_register1: usize, source_register2: usize) -> (r: Instruction)
    ensures
        r == (Instruction::Op {
            destination_register,
            source_register1,
            source_register2,
            funct3: XOR,
            funct7: 0,
        }),
{
    op(destination_register, source_register1, source_register2, XOR, 0)
}

/// Construct a logical shift left of rs1 by the low five bits of rs2.
pub fn sll(destination_register: usize, source_register1: usize, source_register2: usize) -> (r: Instruction)
    ensures
        r == (Instruction::Op {
            destination_register,
            source_register1,
            source_register2,
            funct3: SLL,
            funct7: 0,
        }),
{
    op(destination_register, source_register1, source_register2, SLL, 0)
}

/// Construct a logical shift right of rs1 by the low five bits of rs2.
pub fn srl(destination_register: usize, source_register1: usize, source_register2: usize) -> (r: Instruction)
    ensures
        r == (Instruction::Op {
            destination_register,
            source_register1,
            source_register2,
            funct3: SRL_OR_SRA,
            funct7: 0,
        }),
{
    op(destination_register, source_register1, source_register2, SRL_OR_SRA, 0)
}

/// Construct an arithmetic shift right of rs1 by the low five bits of rs2.
pub fn sra(destination_register: usize, source_register1: usize, source_register2: usize) -> (r: Instruction)
    ensures
        r == (Instruction::Op {
            destination_register,
            source_register1,
            source_register2,
            funct3: SRL_OR_SRA,
            funct7: 0x20,
        }),
{
    op(destination_register, source_register1, source_register2, SRL_OR_SRA, 0x20)
}

/// Construct a load-upper-immediate (rd becomes `value`, whose low 12 bits
/// must be zero).
pub fn lui(destination_register: usize, value: u32) -> (r: Instruction)
    ensures
        r == (Instruction::Lui { destination_register, value }),
{
    Instruction::Lui { destination_register, value }
}

/// Construct an add-upper-immediate-to-PC (rd becomes `value + pc`, where
/// `value`'s low 12 bits must be zero).
pub fn auipc(destination_register: usize, value: u32) -> (r: Instruction)
    ensures
        r == (Instruction::Auipc { destination_register, value }),
{
    Instruction::Auipc { destination_register, value }
}

/// Construct a jump and link: pc moves by the signed 21-bit offset and rd
/// receives the old pc + 4.
pub fn jal(destination_register: usize, address_offset: i32) -> (r: Instruction)
    ensures
        r == (Instruction::Jal { destination_register, address_offset }),
{
    Instruction::Jal { address_offset, destination_register }
}

/// Construct a jump and link register: pc becomes rs1 plus a signed 12-bit
/// offset (with the low bit cleared) and rd receives the old pc + 4.
pub fn jalr(destination_register: usize, source_register: usize, address_offset: i16) -> (r: Instruction)
    ensures
        r == (Instruction::Jalr { destination_register, source_register, address_offset }),
{
    Instruction::Jalr { address_offset, destination_register, source_register }
}

/// Construct a branch-equal: branch to pc + offset if rs1 equals rs2.
pub fn beq(source_register1: usize, source_register2: usize, branch_offset: i16) -> (r: Instruction)
    ensures
        r == (Instruction::Branch { funct3: BEQ, source_register1, source_register2, branch_offset }),
{
    Instruction::Branch { funct3: BEQ, source_register1, source_register2, branch_offset }
}

/// Construct a branch-not-equal: branch to pc + offset if rs1 differs from
/// rs2.
pub fn bne(source_register1: usize, source_register2: usize, branch_offset: i16) -> (r: Instruction)
    ensures
        r == (Instruction::Branch { funct3: BNE, source_register1, source_register2, branch_offset }),
{
    Instruction::Branch { funct3: BNE, source_register1, source_register2, branch_offset }
}

/// Construct a branch-less-than (signed).
pub fn blt(source_register1: usize, source_register2: usize, branch_offset: i16) -> (r: Instruction)
    ensures
        r == (Instruction::Branch { funct3: BLT, source_register1, source_register2, branch_offset }),
{
    Instruction::Branch { funct3: BLT, source_register1, source_register2, branch_offset }
}

/// Construct a branch-greater-or-equal (signed).
pub fn bge(source_register1: usize, source_register2: usize, branch_offset: i16) -> (r: Instruction)
    ensures
        r == (Instruction::Branch { funct3: BGE, source_register1, source_register2, branch_offset }),
{
    Instruction::Branch { funct3: BGE, source_register1, source_register2, branch_offset }
}

/// Construct a branch-less-than (unsigned).
pub fn bltu(source_register1: usize, source_register2: usize, branch_offset: i16) -> (r: Instruction)
    ensures
        r == (Instruction::Branch { funct3: BLTU, source_register1, source_register2, branch_offset }),
{
    Instruction::Branch { funct3: BLTU, source_register1, source_register2, branch_offset }
}

/// Construct a branch-greater-or-equal (unsigned).
pub fn bgeu(source_register1: usize, source_register2: usize, branch_offset: i16) -> (r: Instruction)
    ensures
        r == (Instruction::Branch { funct3: BGEU, source_register1, source_register2, branch_offset }),
{
    Instruction::Branch { funct3: BGEU, source_register1, source_register2, branch_offset }
}

/// Construct a load-byte: rd receives the sign-extended byte at rs1 +
/// offset.
pub fn lb(source_register: usize, destination_register: usize, offset: i16) -> (r: Instruction)
    ensures
        r == (Instruction::Load { funct3: LB, source_register, destination_register, offset }),
{
    Instruction::Load { funct3: LB, source_register, destination_register, offset }
}

/// Construct a load-halfword: rd receives the sign-extended halfword at rs1
/// + offset.
pub fn lh(source_register: usize, destination_register: usize, offset: i16) -> (r: Instruction)
    ensures
        r == (Instruction::Load { funct3: LH, source_register, destination_register, offset }),
{
    Instruction::Load { funct3: LH, source_register, destination_register, offset }
}

/// Construct a load-byte-unsigned: rd receives the zero-extended byte at rs1
/// + offset.
pub fn lbu(source_register: usize, destination_register: usize, offset: i16) -> (r: Instruction)
    ensures
        r == (Instruction::Load { funct3: LBU, source_register, destination_register, offset }),
{
    Instruction::Load { funct3: LBU, source_register, destination_register, offset }
}

/// Construct a load-halfword-unsigned: rd receives the zero-extended
/// halfword at rs1 + offset.
pub fn lhu(source_register: usize, destination_register: usize, offset: i16) -> (r: Instruction)
    ensures
        r == (Instruction::Load { funct3: LHU, source_register, destination_register, offset }),
{
    Instruction::Load { funct3: LHU, source_register, destination_register, offset }
}

/// Construct a load-word: rd receives the word at rs1 + offset.
pub fn lw(source_register: usize, destination_register: usize, offset: i16) -> (r: Instruction)
    ensures
        r == (Instruction::Load { funct3: LW, source_register, destination_register, offset }),
{
    Instruction::Load { funct3: LW, source_register, destination_register, offset }
}

/// Construct a store-byte: the low byte of rs2 is stored at rs1 + offset.
pub fn sb(source_register1: usize, source_register2: usize, offset: i16) -> (r: Instruction)
    ensures
        r == (Instruction::Store { funct3: SB, source_register1, source_register2, offset }),
{
    Instruction::Store { funct3: SB, source_register1, source_register2, offset }
}

/// Construct a store-halfword: the low halfword of rs2 is stored at rs1 +
/// offset.
pub fn sh(source_register1: usize, source_register2: usize, offset: i16) -> (r: Instruction)
    ensures
        r == (Instruction::Store { funct3: SH, source_register1, source_register2, offset }),
{
    Instruction::Store { funct3: SH, source_register1, source_register2, offset }
}

/// Construct a store-word: rs2 is stored at rs1 + offset.
pub fn sw(source_register1: usize, source_register2: usize, offset: i16) -> (r: Instruction)
    ensures
        r == (Instruction::Store { funct3: SW, source_register1, source_register2, offset }),
{
    Instruction::Store { funct3: SW, source_register1, source_register2, offset }
}

/// Construct the canonical no-op: ADDI with rd = 0, rs1 = 0 and immediate 0.
pub fn no_op() -> (r: Instruction)
    ensures
        r == (Instruction::OpImm {
            destination_register: 0,
            source_register: 0,
            funct3: ADDI,
            immediate: 0,
        }),
{
    addi(0, 0, 0)
}

/// Construct a fence instruction.  The simulator executes it as a no-op.
pub fn fence() -> (r: Instruction)
    ensures
        r == (Instruction::Fence { pred: 0, succ: 0 }),
{
    Instruction::Fence { pred: 0, succ: 0 }
}

/// Construct a fence.i instruction.  The simulator executes it as a no-op.
pub fn fence_i() -> (r: Instruction)
    ensures
        r == (Instruction::FenceI {  }),
{
    Instruction::FenceI {  }
}

/// Construct an ecall: a chip-specific environment call.
pub fn ecall() -> (r: Instruction)
    ensures
        r == Instruction::ECall,
{
    Instruction::ECall
}

/// Construct an ebreak: a debug breakpoint.
pub fn ebreak() -> (r: Instruction)
    ensures
        r == Instruction::EBreak,
{
    Instruction::EBreak
}

/// Construct a CSRRW: atomically swap the CSR at `csr` with the source
/// register.
pub fn csrrw(source_register: usize, destination_register: usize, csr: usize) -> (r: Instruction)
    ensures
        r == (Instruction::CsrRw { source_register, destination_register, csr }),
{
    Instruction::CsrRw { source_register, destination_register, csr }
}

/// Construct a CSRRS: read the CSR at `csr` and set the bits of the source
/// register in it.
pub fn csrrs(source_register: usize, destination_register: usize, csr: usize) -> (r: Instruction)
    ensures
        r == (Instruction::CsrRs { source_register, destination_register, csr }),
{
    Instruction::CsrRs { source_register, destination_register, csr }
}

/// Construct a CSRRC: read the CSR at `csr` and clear the bits of the source
/// register in it.
pub fn csrrc(source_register: usize, destination_register: usize, csr: usize) -> (r: Instruction)
    ensures
        r == (Instruction::CsrRc { source_register, destination_register, csr }),
{
    Instruction::CsrRc { source_register, destination_register, csr }
}

/// Construct a CSRRWI: CSRRW with a five-bit immediate in place of the
/// source register.
pub fn csrrwi(source_register: usize, destination_register: usize, csr: usize) -> (r: Instruction)
    ensures
        r == (Instruction::CsrRwi { source_register, destination_register, csr }),
{
    Instruction::CsrRwi { source_register, destination_register, csr }
}

/// Construct a CSRRSI: CSRRS with a five-bit immediate in place of the
/// source register.
pub fn csrrsi(source_register: usize, destination_register: usize, csr: usize) -> (r: Instruction)
    ensures
        r == (Instruction::CsrRsi { source_register, destination_register, csr }),
{
    Instruction::CsrRsi { source_register, destination_register, csr }
}

/// Construct a CSRRCI: CSRRC with a five-bit immediate in place of the
/// source register.
pub fn csrrci(source_register: usize, destination_register: usize, csr: usize) -> (r: Instruction)
    ensures
        r == (Instruction::CsrRci { source_register, destination_register, csr }),
{
    Instruction::CsrRci { source_register, destination_register, csr }
}

} // verus!
