//! Tests for the register file.

use riscv_lib::cpu::registers::Registers;

fn check_get_and_set() {
    let mut registers = Registers::<64>::new();

    for i in 1..32 {
        assert_eq!(registers.get(i), 0);
        registers.set(i, 50);
        assert_eq!(registers.get(i), 50);
        registers.set(i, 100);
        assert_eq!(registers.get(i), 100);
    }
}

fn check_get_and_set_r0() {
    let mut registers = Registers::<64>::new();
    assert_eq!(registers.get(0), 0);
    registers.set(0, 50);
    assert_eq!(registers.get(0), 0);
    registers.set(0, 100);
    assert_eq!(registers.get(0), 0);
}

#[test]
fn registers_signed_views() {
    let mut registers = Registers::<32>::new();
    registers.seti(1, -1);
    assert_eq!(registers.get(1), 0xFFFF_FFFF);
    assert_eq!(registers.geti(1), -1);
    registers.seti(0, -5);
    assert_eq!(registers.geti(0), 0);
}

#[test]
fn registers_get_and_set() {
    check_get_and_set();
}

#[test]
fn get_and_set() {
    check_get_and_set();
}

#[test]
fn registers_get_and_set_r0() {
    check_get_and_set_r0();
}

#[test]
fn get_and_set_r0() {
    check_get_and_set_r0();
}
