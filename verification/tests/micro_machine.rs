//! Tests of the fixed 8-bit machine: decoding, the tiny bus, signed and
//! unsigned arithmetic, and the compare-skip behavior.

use ablecpu::micro::{Halted, Instruction, CPU};

fn program(prefix: &[u8]) -> [u8; 127] {
    let mut inst = [0u8; 127];
    inst[..prefix.len()].copy_from_slice(prefix);
    inst
}

fn fresh_micro(prefix: &[u8]) -> CPU<()> {
    CPU::new(program(prefix), Vec::new())
}

#[test]
fn micro_decode() {
    let add = Instruction::from_3bytes([0x04, 128, 129]);
    assert!(matches!(add, Instruction::Add(false, false, false, false, 128, 129)));
    let noop = Instruction::from_3bytes([0x00, 1, 2]);
    assert!(matches!(noop, Instruction::NoOp(false, false, false, false)));
    // High flag bits: halt_on_error, store_debug_info, both signs.
    let sub = Instruction::from_3bytes([0xF5, 10, 20]);
    assert!(matches!(sub, Instruction::Sub(true, true, true, true, 10, 20)));
    let comp = Instruction::from_3bytes([0x0D, 128, 129]);
    assert!(matches!(comp, Instruction::CompEq(false, false, false, false, 128, 129)));
}

#[test]
fn micro_fetch_follows_reg_zero() {
    let mut cpu = fresh_micro(&[0x00, 0, 0, 0x04, 128, 129]);
    cpu.reg_zero = 3;
    let inst = cpu.fetch();
    assert!(matches!(inst, Instruction::Add(false, false, false, false, 128, 129)));
}

#[test]
fn micro_add_unsigned() {
    let mut cpu = fresh_micro(&[0x04, 128, 129]);
    cpu.data_mem[0] = 5;
    cpu.data_mem[1] = 3;
    assert!(matches!(cpu.tick(), Halted::Running));
    assert_eq!(cpu.data_mem[0], 8);
    assert_eq!(cpu.data_mem[1], 3);
    assert_eq!(cpu.reg_zero, 3);
}

#[test]
fn micro_add_signed() {
    // Both operands signed: -8 + 3 = -5.
    let mut cpu = fresh_micro(&[0x34, 128, 129]);
    cpu.data_mem[0] = 0xF8;
    cpu.data_mem[1] = 3;
    cpu.tick();
    assert_eq!(cpu.data_mem[0], 0xFB);
}

#[test]
fn micro_sub_mul() {
    let mut cpu = fresh_micro(&[0x05, 128, 129]);
    cpu.data_mem[0] = 9;
    cpu.data_mem[1] = 4;
    cpu.tick();
    assert_eq!(cpu.data_mem[0], 5);

    let mut cpu = fresh_micro(&[0x06, 128, 129]);
    cpu.data_mem[0] = 9;
    cpu.data_mem[1] = 4;
    cpu.tick();
    assert_eq!(cpu.data_mem[0], 36);
}

#[test]
fn micro_div_signed_truncates_toward_zero() {
    // -8 / 3 = -2 in truncating division.
    let mut cpu = fresh_micro(&[0x27, 128, 129]);
    cpu.data_mem[0] = 0xF8;
    cpu.data_mem[1] = 3;
    cpu.tick();
    assert_eq!(cpu.data_mem[0], 0xFE);
}

#[test]
fn micro_div_unsigned() {
    let mut cpu = fresh_micro(&[0x07, 128, 129]);
    cpu.data_mem[0] = 9;
    cpu.data_mem[1] = 2;
    cpu.tick();
    assert_eq!(cpu.data_mem[0], 4);
}

#[test]
fn micro_bitwise() {
    let mut cpu = fresh_micro(&[0x01, 128, 129]);
    cpu.data_mem[0] = 0b1100;
    cpu.data_mem[1] = 0b1010;
    cpu.tick();
    assert_eq!(cpu.data_mem[0], 0b1000);

    let mut cpu = fresh_micro(&[0x02, 128, 129]);
    cpu.data_mem[0] = 0b1100;
    cpu.data_mem[1] = 0b1010;
    cpu.tick();
    assert_eq!(cpu.data_mem[0], 0b1110);

    let mut cpu = fresh_micro(&[0x03, 128, 0]);
    cpu.data_mem[0] = 0b1100;
    cpu.tick();
    assert_eq!(cpu.data_mem[0], 0b1111_0011);
}

#[test]
fn micro_shifts_and_rotates() {
    let mut cpu = fresh_micro(&[0x08, 128, 0]);
    cpu.data_mem[0] = 0b1000_0001;
    cpu.tick();
    assert_eq!(cpu.data_mem[0], 0b0000_0010);

    let mut cpu = fresh_micro(&[0x09, 128, 0]);
    cpu.data_mem[0] = 0b1000_0001;
    cpu.tick();
    assert_eq!(cpu.data_mem[0], 0b0100_0000);

    let mut cpu = fresh_micro(&[0x0A, 128, 0]);
    cpu.data_mem[0] = 0b1000_0001;
    cpu.tick();
    assert_eq!(cpu.data_mem[0], 0b0000_0011);

    let mut cpu = fresh_micro(&[0x0B, 128, 0]);
    cpu.data_mem[0] = 0b1000_0001;
    cpu.tick();
    assert_eq!(cpu.data_mem[0], 0b1100_0000);
}

#[test]
fn micro_copy_and_control_register() {
    // Copy data address 128 to the control register: the skip advance
    // lands on the copied value plus three.
    let mut cpu = fresh_micro(&[0x0C, 128, 0]);
    cpu.data_mem[0] = 30;
    cpu.tick();
    assert_eq!(cpu.reg_zero, 33);
}

#[test]
fn micro_compare_skips() {
    // Unequal bytes: CompEq skips one instruction slot beyond the usual
    // advance.
    let mut cpu = fresh_micro(&[0x0D, 128, 129]);
    cpu.data_mem[0] = 1;
    cpu.data_mem[1] = 2;
    cpu.tick();
    assert_eq!(cpu.reg_zero, 6);

    let mut cpu = fresh_micro(&[0x0D, 128, 129]);
    cpu.tick();
    assert_eq!(cpu.reg_zero, 3);

    // CompGt skips when not strictly greater.
    let mut cpu = fresh_micro(&[0x0E, 128, 129]);
    cpu.data_mem[0] = 2;
    cpu.data_mem[1] = 2;
    cpu.tick();
    assert_eq!(cpu.reg_zero, 6);

    // CompLt skips when not strictly less.
    let mut cpu = fresh_micro(&[0x0F, 128, 129]);
    cpu.data_mem[0] = 1;
    cpu.data_mem[1] = 2;
    cpu.tick();
    assert_eq!(cpu.reg_zero, 3);
}

#[test]
fn micro_instruction_memory_writable() {
    // Copy from data into instruction memory: self-modification.
    let mut cpu = fresh_micro(&[0x0C, 128, 3]);
    cpu.data_mem[0] = 0x04;
    cpu.tick();
    assert_eq!(cpu.inst_mem[3], 0x04);
}
