//! Tests for the CPU driver and full fetch-execute scenarios.

use riscv_lib::cpu::instruction_sets::rv32i::{CpuState, EcallHandler};
use riscv_lib::cpu::instruction_sets::semantics::Trap;
use riscv_lib::cpu::rv32i::{ecall_action, Cpu, EcallAction};
use riscv_lib::instruction::encoder;
use riscv_lib::memory::Memory;

/// A hook that accepts every environment call and does nothing.
struct NoEcall;

impl EcallHandler for NoEcall {
    fn on_ecall(&mut self, _state: &mut CpuState, _memory: &mut Memory) -> Result<(), Trap> {
        Ok(())
    }
}

#[test]
fn cpu_r32i_test_create() {
    let _cpu = Cpu::new();
}

#[test]
fn rv32i_test_create() {
    let _cpu = Cpu::new();
}

#[test]
fn test_step() {
    let mut cpu = Cpu::new();
    let mut memory = Memory::new(8);
    memory.set32(0, encoder::no_op().encode()).unwrap();
    cpu.step(&mut memory, &mut NoEcall).unwrap();
    assert_eq!(cpu.state.registers.pc, 4);
}

#[test]
fn fetch_outside_memory_is_a_fetch_fault() {
    let mut cpu = Cpu::new();
    let mut memory = Memory::new(8);
    cpu.state.registers.pc = 8;
    assert_eq!(cpu.step(&mut memory, &mut NoEcall), Err(Trap::InstructionFetchFault));
    // A fetch that straddles the end of memory faults too.
    cpu.state.registers.pc = 6;
    assert_eq!(cpu.step(&mut memory, &mut NoEcall), Err(Trap::InstructionFetchFault));
}

#[test]
fn three_increments() {
    // ADDI x1, x1, 1 three times starting from x1 = 0 leaves x1 = 3 and the
    // PC at 12.
    let mut cpu = Cpu::new();
    let mut memory = Memory::new(64);
    let word = encoder::addi(1, 1, 1).encode();
    memory.set32(0, word).unwrap();
    memory.set32(4, word).unwrap();
    memory.set32(8, word).unwrap();
    for _ in 0..3 {
        cpu.step(&mut memory, &mut NoEcall).unwrap();
    }
    assert_eq!(cpu.state.registers.get(1), 3);
    assert_eq!(cpu.state.registers.pc, 12);
}

#[test]
fn lui_then_auipc() {
    // LUI x1, 0xDF5A5000, then AUIPC x1, 0xDF5A5000 with the PC at 0xAAA:
    // x1 is 0xDF5A5AAA after the AUIPC.
    let mut cpu = Cpu::new();
    let mut memory = Memory::new(0x1000);
    memory.set32(0, encoder::lui(1, 0xDF5A_5000).encode()).unwrap();
    memory.set32(0xAAA, encoder::auipc(1, 0xDF5A_5000).encode()).unwrap();
    cpu.step(&mut memory, &mut NoEcall).unwrap();
    assert_eq!(cpu.state.registers.get(1), 0xDF5A_5000);
    cpu.state.registers.pc = 0xAAA;
    cpu.step(&mut memory, &mut NoEcall).unwrap();
    assert_eq!(cpu.state.registers.get(1), 0xDF5A_5AAA);
}

#[test]
fn jal_from_5000() {
    // Starting at PC = 5000, JAL x1, 500 sets the PC to 5500 and x1 to 5004.
    let mut cpu = Cpu::new();
    let mut memory = Memory::new(8192);
    memory.set32(5000, encoder::jal(1, 500).encode()).unwrap();
    cpu.state.registers.pc = 5000;
    cpu.step(&mut memory, &mut NoEcall).unwrap();
    assert_eq!(cpu.state.registers.pc, 5500);
    assert_eq!(cpu.state.registers.get(1), 5004);
}

#[test]
fn jalr_writes_old_pc() {
    // Starting at PC = 5000 with x1 = 9000, JALR x1, x1, 500 sets the PC to
    // 9500 and x1 to 5004 (the old PC + 4).
    let mut cpu = Cpu::new();
    let mut memory = Memory::new(16384);
    memory.set32(5000, encoder::jalr(1, 1, 500).encode()).unwrap();
    cpu.state.registers.pc = 5000;
    cpu.state.registers.set(1, 9000);
    cpu.step(&mut memory, &mut NoEcall).unwrap();
    assert_eq!(cpu.state.registers.pc, 9500);
    assert_eq!(cpu.state.registers.get(1), 5004);
}

#[test]
fn byte_loads_from_memory() {
    // Memory holds 0x50 at 500, 0x19 at 501 and 0xFF at 502; with x1 = 500,
    // LB picks them up with sign extension and LBU without.
    let mut cpu = Cpu::new();
    let mut memory = Memory::new(4096);
    memory.set8(500, 0x50).unwrap();
    memory.set8(501, 0x19).unwrap();
    memory.set8(502, 0xFF).unwrap();
    cpu.state.registers.set(1, 500);

    memory.set32(0, encoder::lb(1, 2, 0).encode()).unwrap();
    memory.set32(4, encoder::lb(1, 2, 2).encode()).unwrap();
    memory.set32(8, encoder::lbu(1, 2, 2).encode()).unwrap();

    cpu.step(&mut memory, &mut NoEcall).unwrap();
    assert_eq!(cpu.state.registers.geti(2), 0x50);
    cpu.step(&mut memory, &mut NoEcall).unwrap();
    assert_eq!(cpu.state.registers.geti(2), -1);
    cpu.step(&mut memory, &mut NoEcall).unwrap();
    assert_eq!(cpu.state.registers.geti(2), 0xFF);
}

/// The reference console hook: decide with `ecall_action` and capture the
/// written bytes instead of printing them.
struct CapturingConsole {
    output: Vec<u8>,
    calls: usize,
}

impl EcallHandler for CapturingConsole {
    fn on_ecall(&mut self, state: &mut CpuState, _memory: &mut Memory) -> Result<(), Trap> {
        self.calls += 1;
        match ecall_action(state.registers.get(10), state.registers.get(11))? {
            EcallAction::Terminate => Ok(()),
            EcallAction::WriteByte(b) => {
                self.output.push(b);
                Ok(())
            },
        }
    }
}

#[test]
fn ecall_writes_one_byte() {
    // ECALL with x10 = 1 and x11 = 0x41 ("A") invokes the hook once,
    // advances the PC by 4, and writes one byte 'A' to the captured output.
    let mut cpu = Cpu::new();
    let mut memory = Memory::new(64);
    memory.set32(0, encoder::ecall().encode()).unwrap();
    cpu.state.registers.set(10, 1);
    cpu.state.registers.set(11, 0x41);
    let mut console = CapturingConsole { output: Vec::new(), calls: 0 };
    cpu.step(&mut memory, &mut console).unwrap();
    assert_eq!(console.calls, 1);
    assert_eq!(console.output, vec![0x41u8]);
    assert_eq!(cpu.state.registers.pc, 4);
}

#[test]
fn ecall_action_decides_the_reference_convention() {
    assert_eq!(ecall_action(0, 99), Ok(EcallAction::Terminate));
    assert_eq!(ecall_action(1, 0x41), Ok(EcallAction::WriteByte(0x41)));
    assert_eq!(ecall_action(1, 0x1FF), Ok(EcallAction::WriteByte(0xFF)));
    assert_eq!(ecall_action(2, 0), Err(Trap::IllegalEnvironmentCall));
    assert_eq!(ecall_action(0xFFFF_FFFF, 0), Err(Trap::IllegalEnvironmentCall));
}
