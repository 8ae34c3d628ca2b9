//! End-to-end tests of the word-width-generic machine: construction,
//! the packed cache, the bus, whole ticks, and the error policy.

use ablecpu::arch::Arch;
use ablecpu::errors::CpuError;
use ablecpu::instruction_cache::InstructionCache;
use ablecpu::instructions::{Instruction, InstructionSpeed};
use ablecpu::{Cpu, Device};

/// A device-free machine still needs a device type to name.
struct NoDev;

impl Device<u16> for NoDev {
    fn get_address_space(&self) -> (u16, u16) {
        (1, 0)
    }

    fn load(&self, _address: u16) -> Result<u16, CpuError<u16>> {
        Err(CpuError::DeviceError(0))
    }

    fn push(&self, _address: u16, _value: u16) -> Result<(), CpuError<u16>> {
        Err(CpuError::DeviceError(0))
    }
}

/// A little memory-mapped peripheral for the device path of the bus.
struct EchoDev;

impl Device<u16> for EchoDev {
    fn get_address_space(&self) -> (u16, u16) {
        (50000, 50010)
    }

    fn load(&self, _address: u16) -> Result<u16, CpuError<u16>> {
        Ok(9)
    }

    fn push(&self, _address: u16, value: u16) -> Result<(), CpuError<u16>> {
        Err(CpuError::DeviceError(value))
    }
}

/// A program image for the 16-bit profile: the given prefix, padded with
/// zeros to the instruction segment's byte length.
fn image16(prefix: &[u8]) -> Vec<u8> {
    let mut v = prefix.to_vec();
    v.resize(27305, 0);
    v
}

fn fresh16(prefix: &[u8]) -> Cpu<u16, NoDev> {
    Cpu::new(image16(prefix), Vec::new())
}

#[test]
fn it_works() {
    let mut cstm_vec: Vec<u8> = vec![1, 0, 0, 0, 0, 0, 0, 0, 8];
    let mut fill_vec: Vec<u8> = vec![0; 371365];
    cstm_vec.append(&mut fill_vec);

    let test_cpu: Cpu<u16, NoDev> = Cpu::new(cstm_vec, Vec::new());
    println!("{:?}", test_cpu.instruction_cache.instructions[0]);
}

#[test]
fn version_string() {
    assert_eq!(ablecpu::get_version(), "0.1.0");
}

#[test]
fn be_decoding_per_width() {
    assert_eq!(<u16 as Arch>::from_be_bytes(&[0x12, 0x34]), 0x1234);
    assert_eq!(<u32 as Arch>::from_be_bytes(&[0x12, 0x34, 0x56, 0x78]), 0x12345678);
    assert_eq!(
        <u64 as Arch>::from_be_bytes(&[0x01, 0x02, 0x03, 0x04, 0x05, 0x06, 0x07, 0x08]),
        0x0102030405060708
    );
}

#[test]
fn word_conversions() {
    assert_eq!(<u16 as Arch>::from_i32(420), 420u16);
    assert_eq!(0x1234u16.as_u8(), 0x34);
    assert_eq!(<u64 as Arch>::from_u8(7), 7u64);
    assert_eq!(5u16.wdiv(0), 0);
    assert_eq!(7u32.wdiv(2), 3);
    assert_eq!(0xFFFFu16.wadd(1), 0);
    assert_eq!(0u16.wsub(1), 0xFFFF);
    assert_eq!(0x8001u16.wmul(2), 2);
}

#[test]
fn decode_classes_and_flags() {
    let load = Instruction::from_tuple((0b0010_0000u8, 7u16, 9u16)).unwrap();
    assert!(matches!(
        load,
        Instruction::Load(7, 9, false, false, false, InstructionSpeed::Fast)
    ));
    let div = Instruction::from_tuple((0b1111_1111u8, 1u16, 2u16)).unwrap();
    assert!(matches!(
        div,
        Instruction::Div(1, 2, true, true, true, InstructionSpeed::Halt)
    ));
    let comp = Instruction::from_tuple((0b0110_1001u8, 0u16, 0u16)).unwrap();
    assert!(matches!(
        comp,
        Instruction::Comp(0, 0, false, true, false, InstructionSpeed::Medium)
    ));
    let noop = Instruction::from_tuple((0b0000_0010u8, 0u16, 0u16)).unwrap();
    assert!(matches!(
        noop,
        Instruction::NoOp(0, 0, false, false, false, InstructionSpeed::Slow)
    ));
}

#[test]
fn cache_round_trip_16() {
    // One packed cell: opcode 0x20, operand1 0x0102, operand2 0x0304,
    // then a second cell.
    let cache: InstructionCache<u16> =
        InstructionCache::new(image16(&[0x20, 0x01, 0x02, 0x03, 0x04, 0x7F, 0xAA, 0xBB, 0xCC, 0xDD]));
    assert_eq!(cache.get(0), 0x20);
    assert_eq!(cache.get(1), 0x0102);
    assert_eq!(cache.get(2), 0x0304);
    assert_eq!(cache.get(3), 0x7F);
    assert_eq!(cache.get(4), 0xAABB);
    assert_eq!(cache.get(5), 0xCCDD);
    // Beyond the parsed image everything is zero.
    assert_eq!(cache.get(27300), 0);
}

#[test]
fn cache_round_trip_widths() {
    let mut raw32 = vec![0x11, 0xDE, 0xAD, 0xBE, 0xEF, 0x01, 0x02, 0x03, 0x04];
    raw32.resize(196605, 0);
    let c32 = InstructionCache::new_32(raw32);
    assert_eq!(c32.get(0), 0x11);
    assert_eq!(c32.get(1), 0xDEADBEEF);
    assert_eq!(c32.get(2), 0x01020304);

    let mut raw64 = vec![0x22];
    raw64.extend_from_slice(&[0, 0, 0, 0, 0, 0, 0x12, 0x34]);
    raw64.extend_from_slice(&[0, 0, 0, 0, 0, 0, 0, 0x56]);
    raw64.resize(371365, 0);
    let c64 = InstructionCache::new_64(raw64);
    assert_eq!(c64.get(0), 0x22);
    assert_eq!(c64.get(1), 0x1234);
    assert_eq!(c64.get(2), 0x56);

    let c16 = InstructionCache::new_16(image16(&[0x33, 0xAB, 0xCD, 0x01, 0x02]));
    assert_eq!(c16.get(1), 0xABCD);
}

#[test]
fn cache_set_truncates_opcode_field() {
    let mut cache: InstructionCache<u16> = InstructionCache::new(image16(&[]));
    cache.set(0, 0x1FF);
    assert_eq!(cache.get(0), 0xFF);
    cache.set(1, 0x1FF);
    assert_eq!(cache.get(1), 0x1FF);
}

#[test]
fn bus_read_after_write() {
    let mut cpu = fresh16(&[]);
    assert_eq!(cpu.load(0).unwrap(), 0);
    assert!(cpu.push(5, 4321).is_ok());
    assert_eq!(cpu.load(5).unwrap(), 4321);
    // The data segment starts zeroed.
    assert_eq!(cpu.load(6).unwrap(), 0);
    // Address 0 is the control register.
    assert!(cpu.push(0, 17).is_ok());
    assert_eq!(cpu.load(0).unwrap(), 17);
}

#[test]
fn bus_instruction_region() {
    // The instruction region starts at DATA_SIZE + 1 = 16384 for the
    // 16-bit profile; offset 1 is cell 0's first operand.
    let mut cpu = fresh16(&[0x00, 0x01, 0x02, 0x03, 0x04]);
    assert_eq!(cpu.load(16384).unwrap(), 0x00);
    assert_eq!(cpu.load(16385).unwrap(), 0x0102);
    assert!(cpu.push(16385, 0xBEEF).is_ok());
    assert_eq!(cpu.load(16385).unwrap(), 0xBEEF);
}

#[test]
fn bus_unpopulated_address() {
    let cpu = fresh16(&[]);
    assert!(matches!(
        cpu.load(50000),
        Err(CpuError::AddressNotPopulated(50000))
    ));
}

#[test]
fn bus_device_answers() {
    let devices: Vec<EchoDev> = vec![EchoDev];
    let mut cpu: Cpu<u16, EchoDev> = Cpu::new(image16(&[]), devices);
    assert_eq!(cpu.load(50005).unwrap(), 9);
    assert!(matches!(
        cpu.push(50005, 123),
        Err(CpuError::DeviceError(123))
    ));
    assert!(matches!(
        cpu.load(51000),
        Err(CpuError::AddressNotPopulated(51000))
    ));
}

#[test]
fn tick_load_then_copy() {
    // Cell 0: Load 1234 into data address 7. The next fetch happens at
    // index 5, whose triple is byte 9 (opcode), byte 10 (operand 1,
    // an opcode-slot word) and bytes 11 to 12 (operand 2): Copy from 7
    // to 8.
    let mut cpu = fresh16(&[
        0x20, 0x00, 0x07, 0x04, 0xD2, // Load(7, 1234)
        0, 0, 0, 0, 0x40, // opcode slot of the second fetch: Copy
        0x07, 0x00, 0x08, // source 7, destination 8
    ]);
    cpu.tick().unwrap();
    assert_eq!(cpu.load(7).unwrap(), 1234);
    cpu.tick().unwrap();
    assert_eq!(cpu.load(8).unwrap(), 1234);
    assert_eq!(cpu.reg_zero, 10);
}

#[test]
fn tick_compare_equal_skips_one() {
    // Both operands read the zeroed data segment: equal.
    let mut cpu = fresh16(&[0x60, 0x00, 0x01, 0x00, 0x02]);
    cpu.tick().unwrap();
    assert_eq!(cpu.reg_zero, 6);
}

#[test]
fn tick_compare_greater_skips_two() {
    let mut cpu = fresh16(&[0x60, 0x00, 0x01, 0x00, 0x02]);
    cpu.push(1, 5).unwrap();
    cpu.tick().unwrap();
    assert_eq!(cpu.reg_zero, 7);
}

#[test]
fn tick_compare_less_skips_none() {
    let mut cpu = fresh16(&[0x60, 0x00, 0x01, 0x00, 0x02]);
    cpu.push(2, 5).unwrap();
    cpu.tick().unwrap();
    assert_eq!(cpu.reg_zero, 5);
}

#[test]
fn tick_add_leaves_sum_at_first_operand() {
    let mut cpu = fresh16(&[0x80, 0x00, 0x01, 0x00, 0x02]);
    cpu.push(1, 5).unwrap();
    cpu.push(2, 3).unwrap();
    cpu.tick().unwrap();
    assert_eq!(cpu.load(1).unwrap(), 8);
    assert_eq!(cpu.load(2).unwrap(), 3);
}

#[test]
fn tick_sub_mul_div() {
    let mut cpu = fresh16(&[0xA0, 0x00, 0x01, 0x00, 0x02]);
    cpu.push(1, 5).unwrap();
    cpu.push(2, 3).unwrap();
    cpu.tick().unwrap();
    assert_eq!(cpu.load(1).unwrap(), 2);

    let mut cpu = fresh16(&[0xC0, 0x00, 0x01, 0x00, 0x02]);
    cpu.push(1, 5).unwrap();
    cpu.push(2, 3).unwrap();
    cpu.tick().unwrap();
    assert_eq!(cpu.load(1).unwrap(), 15);

    let mut cpu = fresh16(&[0xE0, 0x00, 0x01, 0x00, 0x02]);
    cpu.push(1, 7).unwrap();
    cpu.push(2, 2).unwrap();
    cpu.tick().unwrap();
    assert_eq!(cpu.load(1).unwrap(), 3);

    // Division by zero yields zero.
    let mut cpu = fresh16(&[0xE0, 0x00, 0x01, 0x00, 0x02]);
    cpu.push(1, 7).unwrap();
    cpu.tick().unwrap();
    assert_eq!(cpu.load(1).unwrap(), 0);
}

#[test]
fn tick_fault_swallowed() {
    // Load targeting 50000, outside every region, with ignore_errors.
    let mut cpu = fresh16(&[0x30, 0xC3, 0x50, 0x00, 0x01]);
    assert!(cpu.tick().is_ok());
    assert_eq!(cpu.reg_zero, 5);
    assert_eq!(cpu.load(420).unwrap(), 0);
}

#[test]
fn tick_fault_escalated() {
    let mut cpu = fresh16(&[0x20, 0xC3, 0x50, 0x00, 0x01]);
    assert!(matches!(
        cpu.tick(),
        Err(CpuError::AddressNotPopulated(0xC350))
    ));
    // An escalated fault ends the tick before the advance.
    assert_eq!(cpu.reg_zero, 0);
}

#[test]
fn tick_fault_diagnostic() {
    // A NoOp first, so the failing control-register value is nonzero;
    // the second fetch (at index 5) is a Copy with no_halt_if_error set,
    // pushing to the unpopulated 50000.
    let mut cpu = fresh16(&[
        0x00, 0x00, 0x00, 0x00, 0x00, // NoOp
        0, 0, 0, 0, 0x48, // opcode slot of the second fetch: Copy | no_halt
        0x07, 0xC3, 0x50, // source 7, destination 50000
    ]);
    cpu.tick().unwrap();
    assert_eq!(cpu.reg_zero, 5);
    cpu.tick().unwrap();
    assert_eq!(cpu.reg_zero, 10);
    // The failing control-register value was recorded at 420.
    assert_eq!(cpu.load(420).unwrap(), 5);
}

#[test]
fn tick_self_modifying_copy() {
    // Cell 0 copies data address 1 (holding 42) onto fetch index 6 —
    // bus address 16384 + 6 — which is the operand-1 slot of the next
    // fetch. The second tick therefore loads into address 42, not 99.
    let mut cpu = fresh16(&[
        0x40, 0x00, 0x01, 0x40, 0x06, // Copy(1, 16390)
        0, 0, 0, 0, 0x20, // opcode slot of the second fetch: Load
        99, 0x00, 0x07, // operand-1 slot 99, operand 2 = 7
    ]);
    cpu.push(1, 42).unwrap();
    cpu.tick().unwrap();
    cpu.tick().unwrap();
    assert_eq!(cpu.load(42).unwrap(), 7);
    assert_eq!(cpu.load(99).unwrap(), 0);
}

#[test]
fn tick_noop_only_advances() {
    let mut cpu = fresh16(&[]);
    cpu.tick().unwrap();
    cpu.tick().unwrap();
    assert_eq!(cpu.reg_zero, 10);
}
