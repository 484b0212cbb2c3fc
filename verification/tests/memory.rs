//! Tests for the memory layer.

use riscv_lib::memory::{Memory, MemoryError};

fn check_simple_8_bit_memory_tests() {
    let mut mem = Memory::new(256);

    for i in 0..256 {
        assert_eq!(mem.get8(i), Ok(0));
    }

    for i in 0..256 {
        mem.set8(i, 255u8 - (i as u8)).unwrap();
    }

    for i in 0..256 {
        assert_eq!(mem.get8(i), Ok(255u8 - (i as u8)));
    }

    for i in 0..256 {
        mem.set8(i, 0).unwrap();
    }

    for i in 0..256 {
        assert_eq!(mem.get8(i), Ok(0));
    }
}

fn check_simple_8_bit_memory_boundry_tests() {
    let mut mem = Memory::new(256);

    if let Err(_) = mem.set8(256, 0) {
    } else {
        panic!("expected write to fail");
    }
    if let Err(_) = mem.get8(256) {
    } else {
        panic!("expected read to fail");
    }

    if let Err(_) = mem.set8(4096, 0) {
    } else {
        panic!("expected write to fail");
    }
    if let Err(_) = mem.get8(4096) {
    } else {
        panic!("expected read to fail");
    }
}

fn check_simple_16_bit_memory_tests() {
    let mut mem = Memory::new(256);

    for i in (0..256).step_by(2) {
        assert_eq!(mem.get16(i), Ok(0));
    }

    for i in (0..256).step_by(2) {
        mem.set16(i, 4096_u16 - (i as u16)).unwrap();
    }

    for i in (0..256).step_by(2) {
        assert_eq!(mem.get16(i), Ok(4096_u16 - (i as u16)));
    }

    for i in (0..256).step_by(2) {
        mem.set16(i, 0).unwrap();
    }

    for i in (0..256).step_by(2) {
        assert_eq!(mem.get16(i), Ok(0));
    }
}

fn check_simple_16_bit_memory_boundry_tests() {
    let mut mem = Memory::new(256);

    if let Err(_) = mem.set16(255, 0) {
    } else {
        panic!("expected write to fail");
    }

    if let Err(_) = mem.get16(255) {
    } else {
        panic!("expected read to fail");
    }

    if let Err(_) = mem.set16(4096, 0) {
    } else {
        panic!("expected write to fail");
    }
    if let Err(_) = mem.get16(4096) {
    } else {
        panic!("expected read to fail");
    }
}

#[test]
fn simple_32_bit_memory_tests() {
    let mut mem = Memory::new(256);
    for i in (0..256).step_by(4) {
        assert_eq!(mem.get32(i), Ok(0));
    }

    for i in (0..256).step_by(4) {
        mem.set32(i, 4096_u32 - (i as u32)).unwrap();
    }

    for i in (0..256).step_by(4) {
        assert_eq!(mem.get32(i), Ok(4096_u32 - (i as u32)));
    }

    for i in (0..256).step_by(4) {
        mem.set32(i, 0).unwrap();
    }

    for i in (0..256).step_by(4) {
        assert_eq!(mem.get32(i), Ok(0));
    }
}

#[test]
fn simple_32_bit_memory_boundry_tests() {
    let mut mem = Memory::new(256);

    if let Err(_) = mem.set32(254, 0) {
    } else {
        panic!("expected write to fail");
    }

    if let Err(_) = mem.get32(254) {
    } else {
        panic!("expected read to fail");
    }

    if let Err(_) = mem.set32(4096, 0) {
    } else {
        panic!("expected write to fail");
    }
    if let Err(_) = mem.get32(4096) {
    } else {
        panic!("expected read to fail");
    }
}

#[test]
fn store_then_load_round_trips() {
    // Storing a value and immediately loading from the same address with the
    // same width yields the stored value, for widths 1, 2 and 4.
    let mut mem = Memory::new(64);
    mem.set8(3, 0xAB).unwrap();
    assert_eq!(mem.get8(3), Ok(0xAB));
    mem.set16(11, 0xBEEF).unwrap();
    assert_eq!(mem.get16(11), Ok(0xBEEF));
    mem.set32(21, 0xDEAD_BEEF).unwrap();
    assert_eq!(mem.get32(21), Ok(0xDEAD_BEEF));
}

#[test]
fn failed_multi_byte_store_leaves_memory_unchanged() {
    let mut mem = Memory::new(8);
    mem.set32(4, 0x0102_0304).unwrap();
    assert_eq!(mem.set32(6, 0xFFFF_FFFF), Err(MemoryError::OutOfBounds));
    assert_eq!(mem.get32(4), Ok(0x0102_0304));
    assert_eq!(mem.set16(7, 0xFFFF), Err(MemoryError::OutOfBounds));
    assert_eq!(mem.get8(7), Ok(0x01));
}

#[test]
fn little_endian_byte_order() {
    let mut mem = Memory::new(8);
    mem.set32(0, 0x0102_0304).unwrap();
    assert_eq!(mem.get8(0), Ok(0x04));
    assert_eq!(mem.get8(1), Ok(0x03));
    assert_eq!(mem.get8(2), Ok(0x02));
    assert_eq!(mem.get8(3), Ok(0x01));
    assert_eq!(mem.get16(0), Ok(0x0304));
    assert_eq!(mem.get16(1), Ok(0x0203));
}

#[test]
fn memory_simple_8_bit_memory_tests() {
    check_simple_8_bit_memory_tests();
}

#[test]
fn simple_8_bit_memory_tests() {
    check_simple_8_bit_memory_tests();
}

#[test]
fn memory_simple_8_bit_memory_boundry_tests() {
    check_simple_8_bit_memory_boundry_tests();
}

#[test]
fn simple_8_bit_memory_boundry_tests() {
    check_simple_8_bit_memory_boundry_tests();
}

#[test]
fn memory_simple_16_bit_memory_tests() {
    check_simple_16_bit_memory_tests();
}

#[test]
fn simple_16_bit_memory_tests() {
    check_simple_16_bit_memory_tests();
}

#[test]
fn memory_simple_16_bit_memory_boundry_tests() {
    check_simple_16_bit_memory_boundry_tests();
}

#[test]
fn simple_16_bit_memory_boundry_tests() {
    check_simple_16_bit_memory_boundry_tests();
}
