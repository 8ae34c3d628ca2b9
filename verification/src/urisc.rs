//! The one-byte-opcode register machine: four 64-bit registers — `a` and
//! `b` the accumulator pair, `s` an address register, `x` the program
//! counter — a 65535-word cache, a 65535-byte instruction store, and
//! memory-mapped devices past the static regions.
//!
//! Opcodes are single bytes; eight of them carry one big-endian 64-bit
//! immediate in the following eight bytes, and advance `x` by seven extra
//! positions. Register arithmetic wraps at 2 to the 64; division by zero
//! is the one arithmetic fault and is excluded by precondition.

use vstd::prelude::*;

use crate::arch::{be_val, lemma_be_val_step};

verus! {

/// The crate's version.
pub fn get_version() -> (r: &'static str)
    ensures
        r@ == "0.1.0"@,
{
    "0.1.0"
}

/// A fault of the register machine, carrying the offending opcode,
/// position or address.
#[derive(Debug)]
pub enum CPUError {
    IllegalInstruction(u64),
    OutOfInstructions(u64),
    IllegalArguments(u64),
    IllegalAddressLoad(u64),
    IllegalAddressPush(u64),
}

/// A memory-mapped peripheral of the register machine. Concrete devices
/// are supplied by the integrator and are outside the verified core, so
/// nothing is assumed of what `load` returns. The address range is
/// declared stable for the device's lifetime: the machine captures it
/// once, at construction.
pub trait Device: Sized {
    /// The inclusive range of addresses this device answers for.
    fn get_address_space(&self) -> (r: (u64, u64));

    /// Read a word from a device address.
    fn load(&self, address: u64) -> u64;

    /// Write a word to a device address.
    fn push(&self, address: u64, value: u64);
}

/// A decoded instruction of the register machine. The bus instructions
/// carry their immediate operand; the `..S` forms address through the
/// `s` register instead and take no operand bytes.
#[derive(Debug)]
pub enum Instruction {
    NoOp,
    LoadBusA(u64),
    LoadBusB(u64),
    Add,
    Subtract,
    Multiply,
    Divide,
    CopyAB,
    CopyBA,
    SwapAB,
    PushABus(u64),
    PushBBus(u64),
    LoadA(u64),
    LoadB(u64),
    LoadBusX(u64),
    CopyAX,
    CopyBX,
    PushXBus(u64),
    LoadX(u64),
    CopyXA,
    CopyXB,
    LoadBusAS,
    LoadBusBS,
    CopyAS,
    CopyBS,
    CopyXS,
    CopySA,
    CopySB,
    CopySX,
    SwapAS,
    SwapBS,
    PushABusS,
    PushBBusS,
    LoadBusXS,
    PushXBusS,
    SkipEq,
    SkipGrEq,
    SkipGr,
    SkipLe,
    SkipLeEq,
}

/// The mathematical state of the register machine.
#[verifier::ext_equal]
pub struct UriscState {
    pub a: u64,
    pub b: u64,
    pub s: u64,
    pub x: u64,
    pub cache: Seq<u64>,
    pub instructions: Seq<u8>,
}

/// A 64-bit value wrapped into a word.
pub open spec fn w64(v: int) -> u64 {
    (v % 0x1_0000_0000_0000_0000) as u64
}

/// Whether this opcode carries an eight-byte immediate operand.
pub open spec fn takes_args(op: u8) -> bool {
    op == 1 || op == 2 || op == 10 || op == 11 || op == 12 || op == 13 || op == 16 || op == 17
}

/// The immediate operand at the current program counter: the eight bytes
/// after the opcode, big-endian.
pub open spec fn args_val(s: UriscState) -> int {
    be_val(s.instructions.subrange(s.x + 1, s.x + 9))
}

/// What the byte at the program counter decodes to. Fails past the end
/// of the instruction store and on the undefined opcodes.
pub open spec fn urisc_decode(s: UriscState) -> Result<Instruction, CPUError> {
    if s.x >= 65535 {
        Err(CPUError::OutOfInstructions(s.x))
    } else {
        let op = s.instructions[s.x as int];
        let arg = w64(args_val(s));
        if op == 0 {
            Ok(Instruction::NoOp)
        } else if op == 1 {
            Ok(Instruction::LoadBusA(arg))
        } else if op == 2 {
            Ok(Instruction::LoadBusB(arg))
        } else if op == 3 {
            Ok(Instruction::Add)
        } else if op == 4 {
            Ok(Instruction::Subtract)
        } else if op == 5 {
            Ok(Instruction::Multiply)
        } else if op == 6 {
            Ok(Instruction::Divide)
        } else if op == 7 {
            Ok(Instruction::CopyAB)
        } else if op == 8 {
            Ok(Instruction::CopyBA)
        } else if op == 9 {
            Ok(Instruction::SwapAB)
        } else if op == 10 {
            Ok(Instruction::PushABus(arg))
        } else if op == 11 {
            Ok(Instruction::PushBBus(arg))
        } else if op == 12 {
            Ok(Instruction::LoadA(arg))
        } else if op == 13 {
            Ok(Instruction::LoadBusX(arg))
        } else if op == 14 {
            Ok(Instruction::CopyAX)
        } else if op == 15 {
            Ok(Instruction::CopyBX)
        } else if op == 16 {
            Ok(Instruction::PushXBus(arg))
        } else if op == 17 {
            Ok(Instruction::LoadX(arg))
        } else if op == 18 {
            Ok(Instruction::CopyXA)
        } else if op == 19 {
            Ok(Instruction::CopyXB)
        } else if op == 20 {
            Ok(Instruction::LoadBusAS)
        } else if op == 21 {
            Ok(Instruction::LoadBusBS)
        } else if op == 22 {
            Ok(Instruction::CopyAS)
        } else if op == 23 {
            Ok(Instruction::CopyBS)
        } else if op == 24 {
            Ok(Instruction::CopyXS)
        } else if op == 25 {
            Ok(Instruction::CopySA)
        } else if op == 26 {
            Ok(Instruction::CopySB)
        } else if op == 27 {
            Ok(Instruction::CopySX)
        } else if op == 28 {
            Ok(Instruction::SwapAS)
        } else if op == 29 {
            Ok(Instruction::SwapBS)
        } else if op == 30 {
            Ok(Instruction::PushABusS)
        } else if op == 31 {
            Ok(Instruction::PushBBusS)
        } else if op == 32 {
            Ok(Instruction::LoadBusXS)
        } else if op == 33 {
            Ok(Instruction::PushXBusS)
        } else if op == 34 {
            Ok(Instruction::SkipEq)
        } else if op == 35 {
            Ok(Instruction::SkipGrEq)
        } else if op == 36 {
            Ok(Instruction::SkipGr)
        } else if op == 37 {
            Ok(Instruction::SkipLe)
        } else if op == 38 {
            Ok(Instruction::SkipLeEq)
        } else {
            Err(CPUError::IllegalInstruction(op as u64))
        }
    }
}

/// Whether a fetch at the current program counter stays inside the
/// instruction store: an opcode with an immediate needs eight more bytes.
pub open spec fn fetch_ok(s: UriscState) -> bool {
    s.x < 65535 ==> (takes_args(s.instructions[s.x as int]) ==> s.x + 9 <= 65535)
}

/// An address the machine's own storage can serve: the cache. The span
/// from 65535 to 131071 has no backing at all — not even an error — and
/// is excluded by precondition; everything above belongs to devices.
pub open spec fn cache_addr(addr: u64) -> bool {
    addr <= 65534
}

/// An address that does not fault the machine outright: the unbacked
/// span is excluded.
pub open spec fn bus_addr_ok(addr: u64) -> bool {
    addr <= 65534 || addr >= 131072
}

/// Whether some registered device's captured range covers address `a`.
pub open spec fn urisc_claimed<D: Device>(devices: Seq<(u64, u64, D)>, a: int) -> bool {
    exists|i: int| 0 <= i < devices.len() && (#[trigger] devices[i]).0 <= a <= devices[i].1
}

/// Whether a bus address needs no device: it is the machine's own cache,
/// or nothing claims it and the access fails cleanly.
pub open spec fn urisc_addr_resolved<D: Device>(devices: Seq<(u64, u64, D)>, addr: u64) -> bool {
    cache_addr(addr) || !urisc_claimed(devices, addr as int)
}

/// The state with register `a` replaced.
pub open spec fn with_a(s: UriscState, v: u64) -> UriscState {
    UriscState { a: v, ..s }
}

/// The state with register `b` replaced.
pub open spec fn with_b(s: UriscState, v: u64) -> UriscState {
    UriscState { b: v, ..s }
}

/// The state with register `s` replaced.
pub open spec fn with_s(s: UriscState, v: u64) -> UriscState {
    UriscState { s: v, ..s }
}

/// The state with register `x` replaced.
pub open spec fn with_x(s: UriscState, v: u64) -> UriscState {
    UriscState { x: v, ..s }
}

/// The state after the seven-position skip that follows an immediate
/// operand.
pub open spec fn skip7(s: UriscState) -> UriscState {
    with_x(s, w64(s.x + 7))
}

/// The word a cache load returns.
pub open spec fn uload(s: UriscState, addr: u64) -> u64
    recommends
        cache_addr(addr),
{
    s.cache[addr as int]
}

/// The state after a cache store.
pub open spec fn ustore(s: UriscState, addr: u64, v: u64) -> UriscState
    recommends
        cache_addr(addr),
{
    UriscState { cache: s.cache.update(addr as int, v), ..s }
}

/// What one decoded instruction does. An instruction that touches the
/// bus fails with the address when nothing backs it; everything else is
/// register movement. Meaningful when every bus address the instruction
/// touches is resolved (see `urisc_addr_resolved`).
pub open spec fn urisc_process(s: UriscState, inst: Instruction) -> (
    UriscState,
    Result<(), CPUError>,
) {
    match inst {
        Instruction::NoOp => (s, Ok(())),
        Instruction::LoadBusA(arg) => if cache_addr(arg) {
            (skip7(with_a(s, uload(s, arg))), Ok(()))
        } else {
            (s, Err(CPUError::IllegalAddressLoad(arg)))
        },
        Instruction::LoadBusB(arg) => if cache_addr(arg) {
            (skip7(with_b(s, uload(s, arg))), Ok(()))
        } else {
            (s, Err(CPUError::IllegalAddressLoad(arg)))
        },
        Instruction::Add => (with_a(s, w64(s.a + s.b)), Ok(())),
        Instruction::Subtract => (with_a(s, w64(s.a - s.b)), Ok(())),
        Instruction::Multiply => (with_a(s, w64(s.a * s.b)), Ok(())),
        Instruction::Divide => (with_a(s, w64(s.a as int / s.b as int)), Ok(())),
        Instruction::CopyAB => (with_b(s, s.a), Ok(())),
        Instruction::CopyBA => (with_a(s, s.b), Ok(())),
        Instruction::SwapAB => (UriscState { a: s.b, b: s.a, ..s }, Ok(())),
        Instruction::PushABus(arg) => if cache_addr(arg) {
            (skip7(ustore(s, arg, s.a)), Ok(()))
        } else {
            (s, Err(CPUError::IllegalAddressPush(arg)))
        },
        Instruction::PushBBus(arg) => if cache_addr(arg) {
            (skip7(ustore(s, arg, s.b)), Ok(()))
        } else {
            (s, Err(CPUError::IllegalAddressPush(arg)))
        },
        Instruction::LoadA(arg) => (skip7(with_a(s, arg)), Ok(())),
        Instruction::LoadB(arg) => (skip7(with_b(s, arg)), Ok(())),
        Instruction::LoadBusX(arg) => if cache_addr(arg) {
            (skip7(with_x(s, uload(s, arg))), Ok(()))
        } else {
            (s, Err(CPUError::IllegalAddressLoad(arg)))
        },
        Instruction::CopyAX => (with_x(s, s.a), Ok(())),
        Instruction::CopyBX => (with_x(s, s.b), Ok(())),
        Instruction::PushXBus(arg) => if cache_addr(arg) {
            (skip7(ustore(s, arg, s.x)), Ok(()))
        } else {
            (s, Err(CPUError::IllegalAddressPush(arg)))
        },
        Instruction::LoadX(arg) => (skip7(with_x(s, arg)), Ok(())),
        Instruction::CopyXA => (with_a(s, s.x), Ok(())),
        Instruction::CopyXB => (with_b(s, s.x), Ok(())),
        Instruction::LoadBusAS => if cache_addr(s.s) {
            (with_a(s, uload(s, s.s)), Ok(()))
        } else {
            (s, Err(CPUError::IllegalAddressLoad(s.s)))
        },
        Instruction::LoadBusBS => if cache_addr(s.s) {
            (with_b(s, uload(s, s.s)), Ok(()))
        } else {
            (s, Err(CPUError::IllegalAddressLoad(s.s)))
        },
        Instruction::CopyAS => (with_s(s, s.a), Ok(())),
        Instruction::CopyBS => (with_s(s, s.b), Ok(())),
        Instruction::CopyXS => (with_s(s, s.x), Ok(())),
        Instruction::CopySA => (with_a(s, s.s), Ok(())),
        Instruction::CopySB => (with_b(s, s.s), Ok(())),
        Instruction::CopySX => (with_x(s, s.s), Ok(())),
        Instruction::SwapAS => (UriscState { a: s.s, s: s.a, ..s }, Ok(())),
        Instruction::SwapBS => (UriscState { b: s.s, s: s.b, ..s }, Ok(())),
        Instruction::PushABusS => if cache_addr(s.s) {
            (ustore(s, s.s, s.a), Ok(()))
        } else {
            (s, Err(CPUError::IllegalAddressPush(s.s)))
        },
        Instruction::PushBBusS => if cache_addr(s.s) {
            (ustore(s, s.s, s.b), Ok(()))
        } else {
            (s, Err(CPUError::IllegalAddressPush(s.s)))
        },
        Instruction::LoadBusXS => if cache_addr(s.s) {
            (with_x(s, uload(s, s.s)), Ok(()))
        } else {
            (s, Err(CPUError::IllegalAddressLoad(s.s)))
        },
        Instruction::PushXBusS => if cache_addr(s.s) {
            (ustore(s, s.s, s.x), Ok(()))
        } else {
            (s, Err(CPUError::IllegalAddressPush(s.s)))
        },
        Instruction::SkipEq => if s.a == s.b {
            (with_x(s, w64(s.x + 1)), Ok(()))
        } else {
            (s, Ok(()))
        },
        Instruction::SkipGrEq => if s.a >= s.b {
            (with_x(s, w64(s.x + 1)), Ok(()))
        } else {
            (s, Ok(()))
        },
        Instruction::SkipGr => if s.a > s.b {
            (with_x(s, w64(s.x + 1)), Ok(()))
        } else {
            (s, Ok(()))
        },
        Instruction::SkipLe => if s.a < s.b {
            (with_x(s, w64(s.x + 1)), Ok(()))
        } else {
            (s, Ok(()))
        },
        Instruction::SkipLeEq => if s.a <= s.b {
            (with_x(s, w64(s.x + 1)), Ok(()))
        } else {
            (s, Ok(()))
        },
    }
}

/// When an instruction runs without a machine fault: its division has a
/// nonzero divisor, and any bus address it touches is outside the
/// unbacked span.
pub open spec fn urisc_process_ok(s: UriscState, inst: Instruction) -> bool {
    match inst {
        Instruction::Divide => s.b != 0,
        Instruction::LoadBusA(arg) => bus_addr_ok(arg),
        Instruction::LoadBusB(arg) => bus_addr_ok(arg),
        Instruction::LoadBusX(arg) => bus_addr_ok(arg),
        Instruction::PushABus(arg) => bus_addr_ok(arg),
        Instruction::PushBBus(arg) => bus_addr_ok(arg),
        Instruction::PushXBus(arg) => bus_addr_ok(arg),
        Instruction::LoadBusAS => bus_addr_ok(s.s),
        Instruction::LoadBusBS => bus_addr_ok(s.s),
        Instruction::LoadBusXS => bus_addr_ok(s.s),
        Instruction::PushABusS => bus_addr_ok(s.s),
        Instruction::PushBBusS => bus_addr_ok(s.s),
        Instruction::PushXBusS => bus_addr_ok(s.s),
        _ => true,
    }
}

/// Whether every bus address the instruction touches is resolved.
pub open spec fn urisc_inst_resolved<D: Device>(
    s: UriscState,
    devices: Seq<(u64, u64, D)>,
    inst: Instruction,
) -> bool {
    match inst {
        Instruction::LoadBusA(arg) => urisc_addr_resolved(devices, arg),
        Instruction::LoadBusB(arg) => urisc_addr_resolved(devices, arg),
        Instruction::LoadBusX(arg) => urisc_addr_resolved(devices, arg),
        Instruction::PushABus(arg) => urisc_addr_resolved(devices, arg),
        Instruction::PushBBus(arg) => urisc_addr_resolved(devices, arg),
        Instruction::PushXBus(arg) => urisc_addr_resolved(devices, arg),
        Instruction::LoadBusAS => urisc_addr_resolved(devices, s.s),
        Instruction::LoadBusBS => urisc_addr_resolved(devices, s.s),
        Instruction::LoadBusXS => urisc_addr_resolved(devices, s.s),
        Instruction::PushABusS => urisc_addr_resolved(devices, s.s),
        Instruction::PushBBusS => urisc_addr_resolved(devices, s.s),
        Instruction::PushXBusS => urisc_addr_resolved(devices, s.s),
        _ => true,
    }
}

/// Whether an instruction touches the bus or carries an immediate: the
/// forms the engine runs through its bus-and-immediate path.
pub open spec fn is_bus_or_imm(inst: Instruction) -> bool {
    match inst {
        Instruction::LoadBusA(_) => true,
        Instruction::LoadBusB(_) => true,
        Instruction::LoadBusX(_) => true,
        Instruction::PushABus(_) => true,
        Instruction::PushBBus(_) => true,
        Instruction::PushXBus(_) => true,
        Instruction::LoadA(_) => true,
        Instruction::LoadB(_) => true,
        Instruction::LoadX(_) => true,
        Instruction::LoadBusAS => true,
        Instruction::LoadBusBS => true,
        Instruction::LoadBusXS => true,
        Instruction::PushABusS => true,
        Instruction::PushBBusS => true,
        Instruction::PushXBusS => true,
        _ => false,
    }
}

/// Route an instruction to the engine's bus-and-immediate path or its
/// register path.
fn is_bus_or_imm_exec(inst: &Instruction) -> (r: bool)
    ensures
        r == is_bus_or_imm(*inst),
{
    match inst {
        Instruction::LoadBusA(_) => true,
        Instruction::LoadBusB(_) => true,
        Instruction::LoadBusX(_) => true,
        Instruction::PushABus(_) => true,
        Instruction::PushBBus(_) => true,
        Instruction::PushXBus(_) => true,
        Instruction::LoadA(_) => true,
        Instruction::LoadB(_) => true,
        Instruction::LoadX(_) => true,
        Instruction::LoadBusAS => true,
        Instruction::LoadBusBS => true,
        Instruction::LoadBusXS => true,
        Instruction::PushABusS => true,
        Instruction::PushBBusS => true,
        Instruction::PushXBusS => true,
        _ => false,
    }
}

/// One whole tick: decode at the program counter, run the instruction,
/// then advance the counter by one. A failed decode or an escalated
/// fault ends the tick before the advance.
pub open spec fn urisc_step(s: UriscState) -> (UriscState, Result<(), CPUError>) {
    match urisc_decode(s) {
        Err(e) => (s, Err(e)),
        Ok(inst) => {
            let pr = urisc_process(s, inst);
            if pr.1 is Err {
                pr
            } else {
                (with_x(pr.0, w64(pr.0.x + 1)), Ok(()))
            }
        },
    }
}

/// The register machine.
pub struct Cpu<D: Device> {
    pub reg_a: u64,
    pub reg_b: u64,
    pub reg_s: u64,
    pub reg_x: u64,
    pub cache: [u64; 65535],
    pub instructions: [u8; 65535],
    /// Each device together with the bounds of the range it declared at
    /// construction, first registered first.
    pub devices: Vec<(u64, u64, D)>,
}

impl<D: Device> View for Cpu<D> {
    type V = UriscState;

    open spec fn view(&self) -> UriscState {
        UriscState {
            a: self.reg_a,
            b: self.reg_b,
            s: self.reg_s,
            x: self.reg_x,
            cache: self.cache@,
            instructions: self.instructions@,
        }
    }
}

/// A snapshot of the register machine a driver prints between ticks.
pub struct CpuState {
    pub a: u64,
    pub b: u64,
    pub s: u64,
    pub x: u64,
    pub cache: Vec<u64>,
    pub upcoming: Instruction,
}

impl<D: Device> Cpu<D> {
    /// Build a machine over an instruction store, with a zeroed cache
    /// and all registers at zero.
    pub fn new(instructions: [u8; 65535], devices: Vec<D>) -> (r: Cpu<D>)
        ensures
            r.reg_a == 0 && r.reg_b == 0 && r.reg_s == 0 && r.reg_x == 0,
            r.instructions@ == instructions@,
            forall|i: int| 0 <= i < 65535 ==> r.cache@[i] == 0,
            r.devices@.len() == devices@.len(),
            forall|i: int| 0 <= i < devices@.len() ==> (#[trigger] r.devices@[i]).2 == devices@[i],
    {
        let ghost orig = devices@;
        let mut rest = devices;
        let mut devs: Vec<(u64, u64, D)> = Vec::new();
        while rest.len() > 0
            invariant
                devs@.len() + rest@.len() == orig.len(),
                rest@ == orig.subrange(devs@.len() as int, orig.len() as int),
                forall|i: int| 0 <= i < devs@.len() ==> (#[trigger] devs@[i]).2 == orig[i],
            decreases rest@.len(),
        {
            let d = rest.remove(0);
            let range = d.get_address_space();
            devs.push((range.0, range.1, d));
        }
        Cpu {
            reg_a: 0,
            reg_b: 0,
            reg_s: 0,
            reg_x: 0,
            cache: [0; 65535],
            instructions,
            devices: devs,
        }
    }

    /// The eight immediate bytes after position `start`, big-endian.
    fn get_args(&self, start: u64) -> (r: Result<u64, CPUError>)
        requires
            self.reg_x == start,
            start + 9 <= 65535,
        ensures
            r == Ok::<u64, CPUError>(w64(args_val(self@))),
    {
        let i = start as usize;
        let mut v: u64 = 0;
        let b0 = self.instructions[i + 1];
        let b1 = self.instructions[i + 2];
        let b2 = self.instructions[i + 3];
        let b3 = self.instructions[i + 4];
        let b4 = self.instructions[i + 5];
        let b5 = self.instructions[i + 6];
        let b6 = self.instructions[i + 7];
        let b7 = self.instructions[i + 8];
        let v1: u64 = (b0 as u64) * 256 + (b1 as u64);
        let v2: u64 = v1 * 256 + (b2 as u64);
        let v3: u64 = v2 * 256 + (b3 as u64);
        let v4: u64 = v3 * 256 + (b4 as u64);
        let v5: u64 = v4 * 256 + (b5 as u64);
        let v6: u64 = v5 * 256 + (b6 as u64);
        let v7: u64 = v6 * 256 + (b7 as u64);
        proof {
            let sub = self@.instructions.subrange(start + 1, start + 9);
            assert(sub.take(0) =~= Seq::<u8>::empty());
            lemma_be_val_step(sub, 0);
            lemma_be_val_step(sub, 1);
            lemma_be_val_step(sub, 2);
            lemma_be_val_step(sub, 3);
            lemma_be_val_step(sub, 4);
            lemma_be_val_step(sub, 5);
            lemma_be_val_step(sub, 6);
            lemma_be_val_step(sub, 7);
            assert(sub.take(8) =~= sub);
            assert(v7 == be_val(sub));
        }
        Ok(v7)
    }

    /// Decode the byte at the program counter. Running off the store and
    /// hitting an undefined opcode are faults, not panics.
    pub fn read_instruction(&self) -> (r: Result<Instruction, CPUError>)
        requires
            fetch_ok(self@),
        ensures
            r == urisc_decode(self@),
    {
        if self.reg_x >= 65535 {
            return Err(CPUError::OutOfInstructions(self.reg_x));
        }
        let i = match self.instructions[self.reg_x as usize] {
            0 => Ok(Instruction::NoOp),
            1 => Ok(Instruction::LoadBusA(self.get_args(self.reg_x)?)),
            2 => Ok(Instruction::LoadBusB(self.get_args(self.reg_x)?)),
            3 => Ok(Instruction::Add),
            4 => Ok(Instruction::Subtract),
            5 => Ok(Instruction::Multiply),
            6 => Ok(Instruction::Divide),
            7 => Ok(Instruction::CopyAB),
            8 => Ok(Instruction::CopyBA),
            9 => Ok(Instruction::SwapAB),
            10 => Ok(Instruction::PushABus(self.get_args(self.reg_x)?)),
            11 => Ok(Instruction::PushBBus(self.get_args(self.reg_x)?)),
            12 => Ok(Instruction::LoadA(self.get_args(self.reg_x)?)),
            13 => Ok(Instruction::LoadBusX(self.get_args(self.reg_x)?)),
            14 => Ok(Instruction::CopyAX),
            15 => Ok(Instruction::CopyBX),
            16 => Ok(Instruction::PushXBus(self.get_args(self.reg_x)?)),
            17 => Ok(Instruction::LoadX(self.get_args(self.reg_x)?)),
            18 => Ok(Instruction::CopyXA),
            19 => Ok(Instruction::CopyXB),
            20 => Ok(Instruction::LoadBusAS),
            21 => Ok(Instruction::LoadBusBS),
            22 => Ok(Instruction::CopyAS),
            23 => Ok(Instruction::CopyBS),
            24 => Ok(Instruction::CopyXS),
            25 => Ok(Instruction::CopySA),
            26 => Ok(Instruction::CopySB),
            27 => Ok(Instruction::CopySX),
            28 => Ok(Instruction::SwapAS),
            29 => Ok(Instruction::SwapBS),
            30 => Ok(Instruction::PushABusS),
            31 => Ok(Instruction::PushBBusS),
            32 => Ok(Instruction::LoadBusXS),
            33 => Ok(Instruction::PushXBusS),
            34 => Ok(Instruction::SkipEq),
            35 => Ok(Instruction::SkipGrEq),
            36 => Ok(Instruction::SkipGr),
            37 => Ok(Instruction::SkipLe),
            38 => Ok(Instruction::SkipLeEq),
            e => Err(CPUError::IllegalInstruction(e as u64)),
        };
        i
    }

    /// Read the word an address holds: the cache below the unbacked
    /// span, a device above it, an `IllegalAddressLoad` fault where
    /// nothing answers. When several devices claim the address, the last
    /// registered one answers.
    fn load_base(&self, arg: u64) -> (r: Result<u64, CPUError>)
        requires
            bus_addr_ok(arg),
        ensures
            cache_addr(arg) ==> r == Ok::<u64, CPUError>(uload(self@, arg)),
            !cache_addr(arg) && !urisc_claimed(self.devices@, arg as int) ==> r == Err::<
                u64,
                CPUError,
            >(CPUError::IllegalAddressLoad(arg)),
    {
        if arg <= 65534 {
            Ok(self.cache[arg as usize])
        } else {
            let mut success: Option<u64> = None;
            let mut idx: usize = 0;
            while idx < self.devices.len()
                invariant
                    idx <= self.devices@.len(),
                    success is None ==> forall|j: int|
                        0 <= j < idx ==> !((#[trigger] self.devices@[j]).0 <= arg
                            <= self.devices@[j].1),
                    success is Some ==> urisc_claimed(self.devices@, arg as int),
                decreases self.devices@.len() - idx,
            {
                let entry = &self.devices[idx];
                if entry.0 <= arg && arg <= entry.1 {
                    success = Some(entry.2.load(arg));
                }
                idx += 1;
            }
            match success {
                Some(v) => Ok(v),
                None => Err(CPUError::IllegalAddressLoad(arg)),
            }
        }
    }

    /// Write a word to an address: the cache below the unbacked span,
    /// every claiming device above it, an `IllegalAddressPush` fault
    /// where nothing answers.
    fn push_base(&mut self, arg: u64, val: u64) -> (r: Result<(), CPUError>)
        requires
            bus_addr_ok(arg),
        ensures
            final(self).devices == old(self).devices,
            cache_addr(arg) ==> final(self)@ == ustore(old(self)@, arg, val) && r == Ok::<
                (),
                CPUError,
            >(()),
            !cache_addr(arg) ==> final(self)@ == old(self)@,
            !cache_addr(arg) && !urisc_claimed(old(self).devices@, arg as int) ==> r == Err::<
                (),
                CPUError,
            >(CPUError::IllegalAddressPush(arg)),
    {
        if arg <= 65534 {
            self.cache[arg as usize] = val;
            proof {
                assert(self@ =~= ustore(old(self)@, arg, val));
            }
            Ok(())
        } else {
            let mut success: bool = false;
            let mut idx: usize = 0;
            while idx < self.devices.len()
                invariant
                    *self == *old(self),
                    idx <= self.devices@.len(),
                    !success ==> forall|j: int|
                        0 <= j < idx ==> !((#[trigger] self.devices@[j]).0 <= arg
                            <= self.devices@[j].1),
                    success ==> urisc_claimed(self.devices@, arg as int),
                decreases self.devices@.len() - idx,
            {
                let entry = &self.devices[idx];
                if entry.0 <= arg && arg <= entry.1 {
                    success = true;
                    entry.2.push(arg, val);
                }
                idx += 1;
            }
            if success {
                Ok(())
            } else {
                Err(CPUError::IllegalAddressPush(arg))
            }
        }
    }

    /// Advance the program counter past an eight-byte immediate.
    fn arg_skip(&mut self)
        ensures
            final(self)@ == skip7(old(self)@),
            final(self).devices == old(self).devices,
    {
        self.reg_x = self.reg_x.wrapping_add(7);
        proof {
            assert(self@ =~= skip7(old(self)@));
        }
    }

    /// Run one decoded instruction: register movement in place, bus
    /// traffic through `load_base` and `push_base`. Whenever the
    /// instruction consults no device, the new state and the result are
    /// exactly those of the specification-level `urisc_process`.
    fn process_instruction(&mut self, inst: Instruction) -> (r: Result<(), CPUError>)
        requires
            urisc_process_ok(old(self)@, inst),
        ensures
            final(self).devices == old(self).devices,
            urisc_inst_resolved(old(self)@, old(self).devices@, inst) ==> ({
                let pr = urisc_process(old(self)@, inst);
                final(self)@ == pr.0 && r == pr.1
            }),
    {
        if is_bus_or_imm_exec(&inst) {
            self.process_bus_instruction(inst)
        } else {
            self.process_register_instruction(inst)
        }
    }

    /// Run a bus or immediate instruction: the forms that read or write
    /// through `load_base` and `push_base` or load an immediate, all of
    /// which skip the operand bytes afterwards.
    #[verifier::rlimit(100)]
    #[verifier::spinoff_prover]
    fn process_bus_instruction(&mut self, inst: Instruction) -> (r: Result<(), CPUError>)
        requires
            urisc_process_ok(old(self)@, inst),
            is_bus_or_imm(inst),
        ensures
            final(self).devices == old(self).devices,
            urisc_inst_resolved(old(self)@, old(self).devices@, inst) ==> ({
                let pr = urisc_process(old(self)@, inst);
                final(self)@ == pr.0 && r == pr.1
            }),
    {
        match inst {
            Instruction::LoadBusA(arg) => {
                self.reg_a = self.load_base(arg)?;
                self.arg_skip();
                Ok(())
            }
            Instruction::LoadBusB(arg) => {
                self.reg_b = self.load_base(arg)?;
                self.arg_skip();
                Ok(())
            }
            Instruction::PushABus(arg) => {
                self.push_base(arg, self.reg_a)?;
                self.arg_skip();
                Ok(())
            }
            Instruction::PushBBus(arg) => {
                self.push_base(arg, self.reg_b)?;
                self.arg_skip();
                Ok(())
            }
            Instruction::LoadA(arg) => {
                self.reg_a = arg;
                self.arg_skip();
                Ok(())
            }
            Instruction::LoadB(arg) => {
                self.reg_b = arg;
                self.arg_skip();
                Ok(())
            }
            Instruction::LoadBusX(arg) => {
                self.reg_x = self.load_base(arg)?;
                self.arg_skip();
                Ok(())
            }
            Instruction::PushXBus(arg) => {
                self.push_base(arg, self.reg_x)?;
                self.arg_skip();
                Ok(())
            }
            Instruction::LoadX(arg) => {
                self.reg_x = arg;
                self.arg_skip();
                Ok(())
            }
            Instruction::LoadBusAS => {
                self.reg_a = self.load_base(self.reg_s)?;
                Ok(())
            }
            Instruction::LoadBusBS => {
                self.reg_b = self.load_base(self.reg_s)?;
                Ok(())
            }
            Instruction::PushABusS => {
                self.push_base(self.reg_s, self.reg_a)?;
                Ok(())
            }
            Instruction::PushBBusS => {
                self.push_base(self.reg_s, self.reg_b)?;
                Ok(())
            }
            Instruction::LoadBusXS => {
                self.reg_x = self.load_base(self.reg_s)?;
                Ok(())
            }
            _ => {
                self.push_base(self.reg_s, self.reg_x)?;
                Ok(())
            }
        }
    }

    /// Run a pure register instruction: arithmetic on the accumulator
    /// pair, register moves and swaps, and the five conditional skips.
    #[verifier::rlimit(100)]
    #[verifier::spinoff_prover]
    fn process_register_instruction(&mut self, inst: Instruction) -> (r: Result<(), CPUError>)
        requires
            urisc_process_ok(old(self)@, inst),
            !is_bus_or_imm(inst),
        ensures
            final(self).devices == old(self).devices,
            ({
                let pr = urisc_process(old(self)@, inst);
                final(self)@ == pr.0 && r == pr.1
            }),
    {
        match inst {
            Instruction::NoOp => Ok(()),
            Instruction::Add => {
                self.reg_a = self.reg_a.wrapping_add(self.reg_b);
                Ok(())
            }
            Instruction::Subtract => {
                self.reg_a = self.reg_a.wrapping_sub(self.reg_b);
                Ok(())
            }
            Instruction::Multiply => {
                self.reg_a = self.reg_a.wrapping_mul(self.reg_b);
                Ok(())
            }
            Instruction::Divide => {
                self.reg_a = self.reg_a / self.reg_b;
                Ok(())
            }
            Instruction::CopyAB => {
                self.reg_b = self.reg_a;
                Ok(())
            }
            Instruction::CopyBA => {
                self.reg_a = self.reg_b;
                Ok(())
            }
            Instruction::SwapAB => {
                let t = self.reg_a;
                self.reg_a = self.reg_b;
                self.reg_b = t;
                Ok(())
            }
            Instruction::CopyAX => {
                self.reg_x = self.reg_a;
                Ok(())
            }
            Instruction::CopyBX => {
                self.reg_x = self.reg_b;
                Ok(())
            }
            Instruction::CopyXA => {
                self.reg_a = self.reg_x;
                Ok(())
            }
            Instruction::CopyXB => {
                self.reg_b = self.reg_x;
                Ok(())
            }
            Instruction::CopyAS => {
                self.reg_s = self.reg_a;
                Ok(())
            }
            Instruction::CopyBS => {
                self.reg_s = self.reg_b;
                Ok(())
            }
            Instruction::CopyXS => {
                self.reg_s = self.reg_x;
                Ok(())
            }
            Instruction::CopySA => {
                self.reg_a = self.reg_s;
                Ok(())
            }
            Instruction::CopySB => {
                self.reg_b = self.reg_s;
                Ok(())
            }
            Instruction::CopySX => {
                self.reg_x = self.reg_s;
                Ok(())
            }
            Instruction::SwapAS => {
                let t = self.reg_a;
                self.reg_a = self.reg_s;
                self.reg_s = t;
                Ok(())
            }
            Instruction::SwapBS => {
                let t = self.reg_b;
                self.reg_b = self.reg_s;
                self.reg_s = t;
                Ok(())
            }
            Instruction::PushXBusS => {
                self.push_base(self.reg_s, self.reg_x)?;
                Ok(())
            }
            Instruction::SkipEq => {
                if self.reg_a == self.reg_b {
                    self.reg_x = self.reg_x.wrapping_add(1);
                }
                Ok(())
            }
            Instruction::SkipGrEq => {
                if self.reg_a >= self.reg_b {
                    self.reg_x = self.reg_x.wrapping_add(1);
                }
                Ok(())
            }
            Instruction::SkipGr => {
                if self.reg_a > self.reg_b {
                    self.reg_x = self.reg_x.wrapping_add(1);
                }
                Ok(())
            }
            Instruction::SkipLe => {
                if self.reg_a < self.reg_b {
                    self.reg_x = self.reg_x.wrapping_add(1);
                }
                Ok(())
            }
            Instruction::SkipLeEq => {
                if self.reg_a <= self.reg_b {
                    self.reg_x = self.reg_x.wrapping_add(1);
                }
                Ok(())
            }
            _ => Ok(()),
        }
    }

    /// One instruction: decode at the program counter, run it, and
    /// advance the counter by one. A failed decode or an escalated fault
    /// ends the tick before the advance. Whenever the instruction
    /// consults no device, the new state and the result are exactly
    /// those of the specification-level `urisc_step`.
    pub fn tick(&mut self) -> (r: Result<(), CPUError>)
        requires
            fetch_ok(old(self)@),
            urisc_decode(old(self)@) matches Ok(i) ==> urisc_process_ok(old(self)@, i),
        ensures
            final(self).devices == old(self).devices,
            (urisc_decode(old(self)@) matches Ok(i) && urisc_inst_resolved(
                old(self)@,
                old(self).devices@,
                i,
            )) ==> ({
                let sr = urisc_step(old(self)@);
                final(self)@ == sr.0 && r == sr.1
            }),
            urisc_decode(old(self)@) matches Err(e) ==> final(self)@ == old(self)@ && r == Err::<
                (),
                CPUError,
            >(e),
    {
        let inst = self.read_instruction()?;
        self.process_instruction(inst)?;
        let ghost pre = self@;
        self.reg_x = self.reg_x.wrapping_add(1);
        proof {
            assert(self@ =~= with_x(pre, w64(pre.x + 1)));
        }
        Ok(())
    }

    /// A snapshot of the registers, the cache, and the instruction about
    /// to run.
    pub fn debug(&self) -> (r: CpuState)
        requires
            fetch_ok(self@),
            urisc_decode(self@) is Ok,
        ensures
            r.a == self.reg_a,
            r.b == self.reg_b,
            r.s == self.reg_s,
            r.x == self.reg_x,
            r.cache@ == self.cache@,
            urisc_decode(self@) == Ok::<Instruction, CPUError>(r.upcoming),
    {
        CpuState {
            a: self.reg_a,
            b: self.reg_b,
            s: self.reg_s,
            x: self.reg_x,
            cache: vstd::slice::slice_to_vec(self.cache.as_slice()),
            upcoming: self.read_instruction().unwrap(),
        }
    }
}

} // verus!
