//! Tests of the one-byte-opcode register machine: decoding with and
//! without immediates, register movement, wrapping arithmetic, skips,
//! the cache bus, and the fault taxonomy.
//!
//! The machine is large (two 65535-element arrays), so each test reuses
//! one instance and resets its registers and instruction store in place.

use ablecpu::urisc::{CPUError, Cpu, Device, Instruction};

/// A device covering a small window above the static regions.
struct Window;

impl Device for Window {
    fn get_address_space(&self) -> (u64, u64) {
        (131072, 131080)
    }

    fn load(&self, _address: u64) -> u64 {
        77
    }

    fn push(&self, _address: u64, _value: u64) {}
}

/// A device-free machine still needs a device type to name.
struct NoDev;

impl Device for NoDev {
    fn get_address_space(&self) -> (u64, u64) {
        (1, 0)
    }

    fn load(&self, _address: u64) -> u64 {
        0
    }

    fn push(&self, _address: u64, _value: u64) {}
}

fn fresh(prefix: &[u8]) -> Box<Cpu<NoDev>> {
    let mut cpu = Box::new(Cpu::new([0u8; 65535], Vec::new()));
    cpu.instructions[..prefix.len()].copy_from_slice(prefix);
    cpu
}

/// Zero the registers and rewrite the front of the instruction store.
fn reset(cpu: &mut Cpu<NoDev>, prefix: &[u8]) {
    cpu.reg_a = 0;
    cpu.reg_b = 0;
    cpu.reg_s = 0;
    cpu.reg_x = 0;
    cpu.instructions[..32].fill(0);
    cpu.instructions[..prefix.len()].copy_from_slice(prefix);
}

#[test]
fn urisc_version_string() {
    assert_eq!(ablecpu::urisc::get_version(), "0.1.0");
}

#[test]
fn urisc_decode_with_immediate() {
    // LoadA with the immediate 0x0102030405060708.
    let cpu = fresh(&[12, 1, 2, 3, 4, 5, 6, 7, 8]);
    let inst = cpu.read_instruction().unwrap();
    assert!(matches!(inst, Instruction::LoadA(0x0102030405060708)));
}

#[test]
fn urisc_decode_register_ops() {
    let mut cpu = fresh(&[3]);
    assert!(matches!(cpu.read_instruction().unwrap(), Instruction::Add));
    reset(&mut cpu, &[38]);
    assert!(matches!(cpu.read_instruction().unwrap(), Instruction::SkipLeEq));
}

#[test]
fn urisc_illegal_opcode() {
    let cpu = fresh(&[200]);
    assert!(matches!(
        cpu.read_instruction(),
        Err(CPUError::IllegalInstruction(200))
    ));
}

#[test]
fn urisc_out_of_instructions() {
    let mut cpu = fresh(&[]);
    cpu.reg_x = 65535;
    assert!(matches!(
        cpu.tick(),
        Err(CPUError::OutOfInstructions(65535))
    ));
}

#[test]
fn urisc_load_immediate_advances_eight() {
    // The eight immediate bytes follow the opcode; the counter advances
    // by eight, so the low immediate byte doubles as the next opcode.
    let mut cpu = fresh(&[12, 0, 0, 0, 0, 0, 0, 0, 42]);
    cpu.tick().unwrap();
    assert_eq!(cpu.reg_a, 42);
    assert_eq!(cpu.reg_x, 8);
}

#[test]
fn urisc_arithmetic_wraps() {
    let mut cpu = fresh(&[3]);
    cpu.reg_a = u64::MAX;
    cpu.reg_b = 2;
    cpu.tick().unwrap();
    assert_eq!(cpu.reg_a, 1);

    reset(&mut cpu, &[4]);
    cpu.reg_a = 1;
    cpu.reg_b = 3;
    cpu.tick().unwrap();
    assert_eq!(cpu.reg_a, u64::MAX - 1);

    reset(&mut cpu, &[5]);
    cpu.reg_a = 6;
    cpu.reg_b = 7;
    cpu.tick().unwrap();
    assert_eq!(cpu.reg_a, 42);

    reset(&mut cpu, &[6]);
    cpu.reg_a = 43;
    cpu.reg_b = 6;
    cpu.tick().unwrap();
    assert_eq!(cpu.reg_a, 7);
}

#[test]
fn urisc_register_movement() {
    let mut cpu = fresh(&[7]);
    cpu.reg_a = 5;
    cpu.tick().unwrap();
    assert_eq!(cpu.reg_b, 5);

    reset(&mut cpu, &[9]);
    cpu.reg_a = 1;
    cpu.reg_b = 2;
    cpu.tick().unwrap();
    assert_eq!((cpu.reg_a, cpu.reg_b), (2, 1));

    reset(&mut cpu, &[28]);
    cpu.reg_a = 1;
    cpu.reg_s = 9;
    cpu.tick().unwrap();
    assert_eq!((cpu.reg_a, cpu.reg_s), (9, 1));

    // CopyAX replaces the program counter before its advance.
    reset(&mut cpu, &[14]);
    cpu.reg_a = 100;
    cpu.tick().unwrap();
    assert_eq!(cpu.reg_x, 101);
}

#[test]
fn urisc_skips() {
    let mut cpu = fresh(&[34]);
    cpu.reg_a = 4;
    cpu.reg_b = 4;
    cpu.tick().unwrap();
    assert_eq!(cpu.reg_x, 2);

    reset(&mut cpu, &[34]);
    cpu.reg_a = 4;
    cpu.reg_b = 5;
    cpu.tick().unwrap();
    assert_eq!(cpu.reg_x, 1);

    reset(&mut cpu, &[37]);
    cpu.reg_a = 4;
    cpu.reg_b = 5;
    cpu.tick().unwrap();
    assert_eq!(cpu.reg_x, 2);
}

#[test]
fn urisc_cache_read_after_write() {
    // PushABus 2 — whose low immediate byte, 2, is also the next
    // opcode, LoadBusB — then LoadBusB 2.
    let mut cpu = fresh(&[10, 0, 0, 0, 0, 0, 0, 0, 2, 0, 0, 0, 0, 0, 0, 0, 2]);
    cpu.reg_a = 4321;
    cpu.tick().unwrap();
    assert_eq!(cpu.cache[2], 4321);
    cpu.tick().unwrap();
    assert_eq!(cpu.reg_b, 4321);
    assert_eq!(cpu.reg_x, 16);
}

#[test]
fn urisc_address_faults() {
    // Loading from an address past every backing fails with the address.
    let mut cpu = fresh(&[1, 0, 0, 0, 0, 0, 0x03, 0x0D, 0x40]);
    assert!(matches!(
        cpu.tick(),
        Err(CPUError::IllegalAddressLoad(200000))
    ));
    // A failed tick does not advance the counter.
    assert_eq!(cpu.reg_x, 0);

    reset(&mut cpu, &[16, 0, 0, 0, 0, 0, 0x03, 0x0D, 0x40]);
    assert!(matches!(
        cpu.tick(),
        Err(CPUError::IllegalAddressPush(200000))
    ));
}

#[test]
fn urisc_device_window() {
    // LoadBusA from 131072, inside the device's window.
    let mut cpu: Box<Cpu<Window>> = Box::new(Cpu::new([0u8; 65535], vec![Window]));
    cpu.instructions[0] = 1;
    cpu.instructions[6] = 0x02;
    cpu.tick().unwrap();
    assert_eq!(cpu.reg_a, 77);
}

#[test]
fn urisc_s_register_addressing() {
    // PushABusS stores through the s register without an immediate.
    let mut cpu = fresh(&[30]);
    cpu.reg_a = 9;
    cpu.reg_s = 3;
    cpu.tick().unwrap();
    assert_eq!(cpu.cache[3], 9);
    assert_eq!(cpu.reg_x, 1);
}

#[test]
fn urisc_debug_snapshot() {
    let mut cpu = fresh(&[12, 0, 0, 0, 0, 0, 0, 0, 42]);
    cpu.reg_a = 1;
    cpu.reg_b = 2;
    cpu.reg_s = 3;
    let state = cpu.debug();
    assert_eq!((state.a, state.b, state.s, state.x), (1, 2, 3, 0));
    assert!(matches!(state.upcoming, Instruction::LoadA(42)));
    assert_eq!(state.cache.len(), 65535);
}
