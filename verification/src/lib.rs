//! A word-width-generic virtual processor.
//!
//! The machine fetches packed instructions from a self-modifiable
//! instruction segment, decodes them against a fixed opcode/flag encoding,
//! and executes them against a unified address space that routes every
//! access to the control register, the data segment, the instruction
//! cache, or a memory-mapped device.
//!
//! The same engine runs as a 16-, 32- or 64-bit machine: the word type is
//! a parameter bounded by [`arch::Arch`], which supplies the
//! per-architecture constants and word arithmetic.

pub mod arch;
pub mod bus;
pub mod debug;
pub mod errors;
pub mod instruction_cache;
pub mod instructions;
pub mod laws;
pub mod micro;
pub mod urisc;

use vstd::prelude::*;

use crate::arch::Arch;
use crate::errors::CpuError;
use crate::instruction_cache::{cell_field_set, cell_field_val, InstructionCache};
use crate::instructions::{decode_spec, Instruction};

verus! {

/// The crate's version.
pub fn get_version() -> (r: &'static str)
    ensures
        r@ == "0.1.0"@,
{
    "0.1.0"
}

/// A memory-mapped peripheral. The machine depends on this interface
/// only; concrete devices are supplied by the integrator and are outside
/// the verified core, so nothing is assumed of what any method returns.
/// The address range is declared stable for the device's lifetime: the
/// machine captures it once, at construction.
pub trait Device<T: Arch>: Sized {
    /// The inclusive range of addresses this device answers for.
    fn get_address_space(&self) -> (r: (T, T));

    /// Read a word from a device address.
    fn load(&self, address: T) -> (r: Result<T, CpuError<T>>);

    /// Write a word to a device address.
    fn push(&self, address: T, value: T) -> (r: Result<(), CpuError<T>>);
}

/// The machine: one control/accumulator word that doubles as the program
/// counter, a zero-initialized data segment, the packed instruction
/// cache, and an ordered list of devices, added once at construction and
/// never removed.
#[allow(non_snake_case)]
pub struct Cpu<T: Arch, D: Device<T>> {
    pub REG_ZERO: T,
    pub DATA_START: T,
    pub DATA_END: T,
    pub INSTRUCTION_START: T,
    pub INSTRUCTION_END: T,
    pub DATA_SIZE: T,
    pub INSTRUCTION_SIZE: T,
    pub reg_zero: T,
    pub data_cache: Vec<T>,
    pub instruction_cache: InstructionCache<T>,
    /// Each device together with the bounds of the range it declared at
    /// construction, first registered first.
    pub devices: Vec<(T, T, D)>,
}

/// The mathematical state of the machine: the control register, the data
/// segment and the instruction cells. The device list is configuration,
/// not state: the machine never changes it.
#[verifier::ext_equal]
pub struct MachineState<T> {
    pub reg_zero: T,
    pub data: Seq<T>,
    pub cells: Seq<(u8, T, T)>,
}

impl<T: Arch, D: Device<T>> View for Cpu<T, D> {
    type V = MachineState<T>;

    open spec fn view(&self) -> MachineState<T> {
        MachineState {
            reg_zero: self.reg_zero,
            data: self.data_cache@,
            cells: self.instruction_cache.instructions@,
        }
    }
}

/// First address of the instruction region.
pub open spec fn inst_start_v<T: Arch>() -> int {
    T::data_size_v() + 1
}

/// The data region: `[1, DATA_SIZE]`, backed by the data segment at an
/// offset of one.
pub open spec fn is_data_addr<T: Arch>(a: int) -> bool {
    1 <= a <= T::data_size_v()
}

/// The instruction region: `[DATA_SIZE + 1, DATA_SIZE + 1 +
/// INSTRUCTION_SIZE]`, backed by the instruction cache word-granularly.
pub open spec fn is_inst_addr<T: Arch>(a: int) -> bool {
    inst_start_v::<T>() <= a <= inst_start_v::<T>() + T::instruction_size_v()
}

/// The statically backed part of the address space: the control register
/// at zero, then the data region, then the instruction region.
pub open spec fn is_static_addr<T: Arch>(a: int) -> bool {
    a == 0 || is_data_addr::<T>(a) || is_inst_addr::<T>(a)
}

/// Whether some registered device's captured range covers address `a`.
pub open spec fn some_device_claims<T: Arch, D: Device<T>>(
    devices: Seq<(T, T, D)>,
    a: int,
) -> bool {
    exists|i: int|
        0 <= i < devices.len() && (#[trigger] devices[i]).0.as_int() <= a <= devices[i].1.as_int()
}

/// The word a load from statically backed address `a` returns.
pub open spec fn sload<T: Arch>(m: MachineState<T>, a: int) -> T
    recommends
        is_static_addr::<T>(a),
{
    if a == 0 {
        m.reg_zero
    } else if is_data_addr::<T>(a) {
        m.data[a - 1]
    } else {
        crate::instruction_cache::cell_field_word(m.cells, a - inst_start_v::<T>())
    }
}

/// The state after a push of `v` to statically backed address `a`.
pub open spec fn store<T: Arch>(m: MachineState<T>, a: int, v: T) -> MachineState<T>
    recommends
        is_static_addr::<T>(a),
{
    if a == 0 {
        MachineState { reg_zero: v, ..m }
    } else if is_data_addr::<T>(a) {
        MachineState { data: m.data.update(a - 1, v), ..m }
    } else {
        MachineState { cells: cell_field_set(m.cells, a - inst_start_v::<T>(), v), ..m }
    }
}

/// The word `w` advanced by `k`, wrapping at the modulus.
pub open spec fn wadd_v<T: Arch>(w: T, k: int) -> T {
    T::from_int_v((w.as_int() + k) % T::modulus())
}

/// The value of an advanced word: the sum, reduced into the word range.
pub proof fn lemma_wadd_v_val<T: Arch>(w: T, k: int)
    requires
        0 <= k,
    ensures
        wadd_v(w, k).as_int() == (w.as_int() + k) % T::modulus(),
{
    w.lemma_as_int_bounds();
    crate::arch::lemma_mod_in_range::<T>(w.as_int() + k);
    T::lemma_from_int_v((w.as_int() + k) % T::modulus());
}

/// The stride: the fixed number of address units the control register
/// advances per tick — one opcode slot and two operand slots, in bytes.
pub open spec fn stride_v<T: Arch>() -> int {
    crate::instruction_cache::stride_v::<T>()
}

/// The opcode byte a fetch at index `i` sees: the low eight bits of the
/// word there.
pub open spec fn fetch_op<T: Arch>(m: MachineState<T>, i: int) -> u8 {
    (cell_field_val(m.cells, i) % 256) as u8
}

/// The instruction a fetch at index `i` decodes: the opcode byte at `i`
/// and the raw operand words at `i + 1` and `i + 2`.
pub open spec fn fetch_decode<T: Arch>(m: MachineState<T>, i: int) -> Instruction<T> {
    decode_spec(
        fetch_op(m, i),
        crate::instruction_cache::cell_field_word(m.cells, i + 1),
        crate::instruction_cache::cell_field_word(m.cells, i + 2),
    )
}

/// The per-instruction error policy, applied to a failing bus operation:
/// with `ignore_errors` the fault is swallowed; else with
/// `no_halt_if_error` unset the tick escalates it; else, unless
/// `no_debug_info` is set, the failing control-register value is recorded
/// at the diagnostic address 420, which is always inside the data segment.
pub open spec fn policy<T: Arch>(
    m: MachineState<T>,
    e: CpuError<T>,
    ignore_errors: bool,
    no_halt_if_error: bool,
    no_debug_info: bool,
) -> (MachineState<T>, Result<(), CpuError<T>>) {
    if ignore_errors {
        (m, Ok(()))
    } else if !no_halt_if_error {
        (m, Err(e))
    } else if !no_debug_info {
        (store(m, 420, m.reg_zero), Ok(()))
    } else {
        (m, Ok(()))
    }
}

/// One engine read: a statically backed address yields its word; an
/// unpopulated one runs the error policy and leaves the default zero
/// word. Meaningful only when no device claims the address.
pub open spec fn load_step<T: Arch>(
    m: MachineState<T>,
    addr: T,
    ignore_errors: bool,
    no_halt_if_error: bool,
    no_debug_info: bool,
) -> (T, MachineState<T>, Result<(), CpuError<T>>) {
    if is_static_addr::<T>(addr.as_int()) {
        (sload(m, addr.as_int()), m, Ok(()))
    } else {
        let pr = policy(m, CpuError::AddressNotPopulated(addr), ignore_errors, no_halt_if_error, no_debug_info);
        (T::from_int_v(0), pr.0, pr.1)
    }
}

/// One engine write: a statically backed address is updated; an
/// unpopulated one runs the error policy. Meaningful only when no device
/// claims the address.
pub open spec fn push_step<T: Arch>(
    m: MachineState<T>,
    addr: T,
    v: T,
    ignore_errors: bool,
    no_halt_if_error: bool,
    no_debug_info: bool,
) -> (MachineState<T>, Result<(), CpuError<T>>) {
    if is_static_addr::<T>(addr.as_int()) {
        (store(m, addr.as_int(), v), Ok(()))
    } else {
        policy(m, CpuError::AddressNotPopulated(addr), ignore_errors, no_halt_if_error, no_debug_info)
    }
}

/// The unconditional advance once a tick completes: the control register
/// moves one stride forward, wrapping.
pub open spec fn advance<T: Arch>(m: MachineState<T>) -> MachineState<T> {
    MachineState { reg_zero: wadd_v(m.reg_zero, stride_v::<T>()), ..m }
}

/// The value an arithmetic instruction computes from its operand values:
/// wrapping addition, subtraction and multiplication; division by zero
/// yields zero.
pub open spec fn arith_val<T: Arch>(kind: int, v1: int, v2: int) -> int {
    if kind == 0 {
        (v1 + v2) % T::modulus()
    } else if kind == 1 {
        if v1 >= v2 {
            v1 - v2
        } else {
            v1 - v2 + T::modulus()
        }
    } else if kind == 2 {
        (v1 * v2) % T::modulus()
    } else {
        if v2 == 0 {
            0
        } else {
            v1 / v2
        }
    }
}

/// What a Copy does before the advance: read the source, then write the
/// word read — or the default zero after a swallowed fault — to the
/// destination, each failure running the error policy.
pub open spec fn copy_effect<T: Arch>(
    m: MachineState<T>,
    arg1: T,
    arg2: T,
    ig: bool,
    nh: bool,
    nd: bool,
) -> (MachineState<T>, Result<(), CpuError<T>>) {
    let lr = load_step(m, arg1, ig, nh, nd);
    if lr.2 is Err {
        (lr.1, lr.2)
    } else {
        push_step(lr.1, arg2, lr.0, ig, nh, nd)
    }
}

/// What a Compare does before the advance: read both operands, then bump
/// the control register by one if they are equal and by two if the first
/// is greater, so that equal and greater comparisons skip one or two
/// extra instruction slots.
pub open spec fn comp_effect<T: Arch>(
    m: MachineState<T>,
    arg1: T,
    arg2: T,
    ig: bool,
    nh: bool,
    nd: bool,
) -> (MachineState<T>, Result<(), CpuError<T>>) {
    let lr1 = load_step(m, arg1, ig, nh, nd);
    if lr1.2 is Err {
        (lr1.1, lr1.2)
    } else {
        let lr2 = load_step(lr1.1, arg2, ig, nh, nd);
        if lr2.2 is Err {
            (lr2.1, lr2.2)
        } else {
            let m2 = lr2.1;
            if lr1.0.as_int() == lr2.0.as_int() {
                (MachineState { reg_zero: wadd_v(m2.reg_zero, 1), ..m2 }, Ok(()))
            } else if lr1.0.as_int() > lr2.0.as_int() {
                (MachineState { reg_zero: wadd_v(m2.reg_zero, 2), ..m2 }, Ok(()))
            } else {
                (m2, Ok(()))
            }
        }
    }
}

/// What Add, Sub, Mul and Div do before the advance: read both operands,
/// compute in the word domain, and write the result back over the first
/// operand, each failure running the error policy.
pub open spec fn arith_effect<T: Arch>(
    m: MachineState<T>,
    kind: int,
    arg1: T,
    arg2: T,
    ig: bool,
    nh: bool,
    nd: bool,
) -> (MachineState<T>, Result<(), CpuError<T>>) {
    let lr1 = load_step(m, arg1, ig, nh, nd);
    if lr1.2 is Err {
        (lr1.1, lr1.2)
    } else {
        let lr2 = load_step(lr1.1, arg2, ig, nh, nd);
        if lr2.2 is Err {
            (lr2.1, lr2.2)
        } else {
            let v = T::from_int_v(arith_val::<T>(kind, lr1.0.as_int(), lr2.0.as_int()));
            push_step(lr2.1, arg1, v, ig, nh, nd)
        }
    }
}

/// What the instruction fetched at the control register does to the
/// machine, before the advance.
pub open spec fn effect<T: Arch>(m: MachineState<T>) -> (MachineState<T>, Result<(), CpuError<T>>) {
    match fetch_decode(m, m.reg_zero.as_int()) {
        Instruction::NoOp(_, _, _, _, _, _) => (m, Ok(())),
        Instruction::Load(arg1, arg2, ig, nh, nd, _) => push_step(m, arg1, arg2, ig, nh, nd),
        Instruction::Copy(arg1, arg2, ig, nh, nd, _) => copy_effect(m, arg1, arg2, ig, nh, nd),
        Instruction::Comp(arg1, arg2, ig, nh, nd, _) => comp_effect(m, arg1, arg2, ig, nh, nd),
        Instruction::Add(arg1, arg2, ig, nh, nd, _) => arith_effect(m, 0, arg1, arg2, ig, nh, nd),
        Instruction::Sub(arg1, arg2, ig, nh, nd, _) => arith_effect(m, 1, arg1, arg2, ig, nh, nd),
        Instruction::Mul(arg1, arg2, ig, nh, nd, _) => arith_effect(m, 2, arg1, arg2, ig, nh, nd),
        Instruction::Div(arg1, arg2, ig, nh, nd, _) => arith_effect(m, 3, arg1, arg2, ig, nh, nd),
    }
}

/// One full fetch–decode–execute–advance cycle as a function of the
/// machine state. An escalated fault ends the tick at once: the advance
/// happens only on completed ticks, including after swallowed faults.
/// Meaningful under `step_deterministic`: a device's answer is not a
/// function of the machine state.
pub open spec fn step<T: Arch>(m: MachineState<T>) -> (MachineState<T>, Result<(), CpuError<T>>) {
    let e = effect(m);
    if e.1 is Err {
        e
    } else {
        (advance(e.0), Ok(()))
    }
}

/// Whether an address is outside every device's range or needs no device
/// at all.
pub open spec fn addr_resolved<T: Arch, D: Device<T>>(devices: Seq<(T, T, D)>, addr: T) -> bool {
    is_static_addr::<T>(addr.as_int()) || !some_device_claims(devices, addr.as_int())
}

/// Whether a tick from `m` consults no device: every address the decoded
/// instruction touches is statically backed or claimed by no device. On a
/// machine with no devices this holds of every state.
pub open spec fn step_deterministic<T: Arch, D: Device<T>>(
    m: MachineState<T>,
    devices: Seq<(T, T, D)>,
) -> bool {
    match fetch_decode(m, m.reg_zero.as_int()) {
        Instruction::NoOp(_, _, _, _, _, _) => true,
        Instruction::Load(arg1, _, _, _, _, _) => addr_resolved(devices, arg1),
        Instruction::Copy(arg1, arg2, _, _, _, _) => addr_resolved(devices, arg1)
            && addr_resolved(devices, arg2),
        Instruction::Comp(arg1, arg2, _, _, _, _) => addr_resolved(devices, arg1)
            && addr_resolved(devices, arg2),
        Instruction::Add(arg1, arg2, _, _, _, _) => addr_resolved(devices, arg1)
            && addr_resolved(devices, arg2),
        Instruction::Sub(arg1, arg2, _, _, _, _) => addr_resolved(devices, arg1)
            && addr_resolved(devices, arg2),
        Instruction::Mul(arg1, arg2, _, _, _, _) => addr_resolved(devices, arg1)
            && addr_resolved(devices, arg2),
        Instruction::Div(arg1, arg2, _, _, _, _) => addr_resolved(devices, arg1)
            && addr_resolved(devices, arg2),
    }
}

impl<T: Arch, D: Device<T>> Cpu<T, D> {
    /// The stored per-architecture constants agree with the word domain,
    /// and the segments have their architecture's lengths.
    pub open spec fn wf(self) -> bool {
        &&& self.REG_ZERO.as_int() == 0
        &&& self.DATA_START.as_int() == 1
        &&& self.DATA_END.as_int() == T::data_size_v()
        &&& self.INSTRUCTION_START.as_int() == inst_start_v::<T>()
        &&& self.INSTRUCTION_END.as_int() == inst_start_v::<T>() + T::instruction_size_v()
        &&& self.DATA_SIZE.as_int() == T::data_size_v()
        &&& self.INSTRUCTION_SIZE.as_int() == T::instruction_size_v()
        &&& self.data_cache@.len() == T::data_size_v()
        &&& self.instruction_cache.wf()
    }

    /// The configuration — the stored constants and the device list —
    /// never changes after construction.
    pub open spec fn same_config(self, other: Cpu<T, D>) -> bool {
        &&& self.REG_ZERO == other.REG_ZERO
        &&& self.DATA_START == other.DATA_START
        &&& self.DATA_END == other.DATA_END
        &&& self.INSTRUCTION_START == other.INSTRUCTION_START
        &&& self.INSTRUCTION_END == other.INSTRUCTION_END
        &&& self.DATA_SIZE == other.DATA_SIZE
        &&& self.INSTRUCTION_SIZE == other.INSTRUCTION_SIZE
        &&& self.devices == other.devices
    }

    /// Whether some device answers for address `a`.
    pub open spec fn claimed(self, a: int) -> bool {
        some_device_claims(self.devices@, a)
    }

    /// Build a machine from a program image and an ordered device list.
    /// The control register starts at zero and the data segment is
    /// zero-initialized.
    pub fn new(instructions: Vec<u8>, devices: Vec<D>) -> (r: Cpu<T, D>)
        requires
            instructions@.len() >= T::instruction_size_v(),
        ensures
            r.wf(),
            r.reg_zero.as_int() == 0,
            r.data_cache@.len() == T::data_size_v(),
            forall|k: int|
                0 <= k < T::data_size_v() ==> (#[trigger] r.data_cache@[k]).as_int() == 0,
            crate::instruction_cache::built_from(r.instruction_cache.instructions@, instructions@),
            r.devices@.len() == devices@.len(),
            forall|i: int|
                0 <= i < devices@.len() ==> (#[trigger] r.devices@[i]).2 == devices@[i],
    {
        proof {
            T::lemma_arch_facts();
        }
        let ghost orig = devices@;
        let mut rest = devices;
        let mut devs: Vec<(T, T, D)> = Vec::new();
        while rest.len() > 0
            invariant
                devs@.len() + rest@.len() == orig.len(),
                rest@ == orig.subrange(devs@.len() as int, orig.len() as int),
                forall|i: int| 0 <= i < devs@.len() ==> (#[trigger] devs@[i]).2 == orig[i],
            decreases rest@.len(),
        {
            let d = rest.remove(0);
            let range = d.get_address_space();
            devs.push((range.0, range.1, d));
        }
        let zero = T::from_u8(0);
        let ds = T::DATA_SIZE();
        let is_ = T::INSTRUCTION_SIZE();
        let ds_len = ds.as_usize();
        let mut data: Vec<T> = Vec::new();
        while data.len() < ds_len
            invariant
                ds_len == T::data_size_v(),
                data@.len() <= ds_len,
                zero.as_int() == 0,
                forall|k: int| 0 <= k < data@.len() ==> (#[trigger] data@[k]).as_int() == 0,
            decreases ds_len - data@.len(),
        {
            data.push(zero);
        }
        proof {
            crate::arch::lemma_mod_small::<T>(T::data_size_v() + 1);
            crate::arch::lemma_mod_small::<T>(T::data_size_v() + 1 + T::instruction_size_v());
        }
        Cpu {
            reg_zero: zero,
            data_cache: data,
            instruction_cache: InstructionCache::new(instructions),
            devices: devs,
            REG_ZERO: zero,
            DATA_START: T::from_u8(1),
            DATA_END: ds,
            INSTRUCTION_START: ds.wadd(T::from_u8(1)),
            INSTRUCTION_END: ds.wadd(T::from_u8(1)).wadd(is_),
            DATA_SIZE: ds,
            INSTRUCTION_SIZE: is_,
        }
    }

    /// Fetch and decode the packed triple at cache index `index`: the
    /// opcode from the word at `index`, narrowed to a byte, and the raw
    /// operand words at the two following indices. Never fails under the
    /// current encoding.
    pub fn get_instruction(&self, index: T) -> (r: Result<Instruction<T>, CpuError<T>>)
        requires
            self.wf(),
            index.as_int() + 2 <= T::instruction_size_v(),
        ensures
            r == Ok::<Instruction<T>, CpuError<T>>(fetch_decode(self@, index.as_int())),
    {
        proof {
            T::lemma_arch_facts();
            index.lemma_as_int_bounds();
            crate::arch::lemma_mod_small::<T>(index.as_int() + 1);
            crate::arch::lemma_mod_small::<T>(index.as_int() + 2);
        }
        let i1 = index.wadd(T::from_u8(1));
        let i2 = index.wadd(T::from_u8(2));
        Instruction::from_tuple((
            self.instruction_cache.get(index).as_u8(),
            self.instruction_cache.get(i1),
            self.instruction_cache.get(i2),
        ))
    }

    /// Apply the per-instruction error policy to a failing bus operation:
    /// swallow it, escalate it, or record the control register at the
    /// diagnostic address.
    fn handle_error(
        &mut self,
        e: CpuError<T>,
        ignore_errors: bool,
        no_halt_if_error: bool,
        no_debug_info: bool,
    ) -> (r: Result<(), CpuError<T>>)
        requires
            old(self).wf(),
        ensures
            final(self).wf(),
            final(self).same_config(*old(self)),
            ({
                let pr = policy(old(self)@, e, ignore_errors, no_halt_if_error, no_debug_info);
                final(self)@ == pr.0 && r == pr.1
            }),
    {
        proof {
            T::lemma_arch_facts();
            crate::arch::lemma_mod_small::<T>(420);
        }
        if !ignore_errors {
            if !no_halt_if_error {
                return Err(e);
            } else {
                if !no_debug_info {
                    self.push(T::from_i32(420), self.reg_zero)?;
                }
            }
        }
        Ok(())
    }

    /// Execute a Load: store the immediate `arg2` at address `arg1`,
    /// running the error policy on failure.
    fn run_load(
        &mut self,
        arg1: T,
        arg2: T,
        ignore_errors: bool,
        no_halt_if_error: bool,
        no_debug_info: bool,
    ) -> (r: Result<(), CpuError<T>>)
        requires
            old(self).wf(),
        ensures
            final(self).wf(),
            final(self).same_config(*old(self)),
            addr_resolved(old(self).devices@, arg1) ==> ({
                let pr = push_step(
                    old(self)@,
                    arg1,
                    arg2,
                    ignore_errors,
                    no_halt_if_error,
                    no_debug_info,
                );
                final(self)@ == pr.0 && r == pr.1
            }),
    {
        match self.push(arg1, arg2) {
            Ok(_) => Ok(()),
            Err(e) => self.handle_error(e, ignore_errors, no_halt_if_error, no_debug_info),
        }
    }

    /// Execute a Copy: read `arg1`, write the word read to `arg2`,
    /// running the error policy on each failure.
    #[verifier::rlimit(100)]
    #[verifier::spinoff_prover]
    fn run_copy(
        &mut self,
        arg1: T,
        arg2: T,
        ignore_errors: bool,
        no_halt_if_error: bool,
        no_debug_info: bool,
    ) -> (r: Result<(), CpuError<T>>)
        requires
            old(self).wf(),
        ensures
            final(self).wf(),
            final(self).same_config(*old(self)),
            addr_resolved(old(self).devices@, arg1) && addr_resolved(old(self).devices@, arg2)
                ==> ({
                let pr = copy_effect(
                    old(self)@,
                    arg1,
                    arg2,
                    ignore_errors,
                    no_halt_if_error,
                    no_debug_info,
                );
                final(self)@ == pr.0 && r == pr.1
            }),
    {
        proof {
            T::lemma_arch_facts();
            T::lemma_from_int_v(0);
        }
        let mut value: T = T::from_u8(0);
        proof {
            value.lemma_as_int_injective(T::from_int_v(0));
        }
        match self.load(arg1) {
            Ok(v) => {
                value = v;
            }
            Err(e) => {
                match self.handle_error(e, ignore_errors, no_halt_if_error, no_debug_info) {
                    Ok(_) => {}
                    Err(e2) => {
                        return Err(e2);
                    }
                }
            }
        }
        match self.push(arg2, value) {
            Ok(_) => Ok(()),
            Err(e) => self.handle_error(e, ignore_errors, no_halt_if_error, no_debug_info),
        }
    }

    /// Execute a Compare: read both operands and bump the control
    /// register by one on equality, by two if the first is greater.
    #[verifier::rlimit(100)]
    #[verifier::spinoff_prover]
    fn run_comp(
        &mut self,
        arg1: T,
        arg2: T,
        ignore_errors: bool,
        no_halt_if_error: bool,
        no_debug_info: bool,
    ) -> (r: Result<(), CpuError<T>>)
        requires
            old(self).wf(),
        ensures
            final(self).wf(),
            final(self).same_config(*old(self)),
            addr_resolved(old(self).devices@, arg1) && addr_resolved(old(self).devices@, arg2)
                ==> ({
                let pr = comp_effect(
                    old(self)@,
                    arg1,
                    arg2,
                    ignore_errors,
                    no_halt_if_error,
                    no_debug_info,
                );
                final(self)@ == pr.0 && r == pr.1
            }),
    {
        proof {
            T::lemma_arch_facts();
            T::lemma_from_int_v(0);
        }
        let mut value1: T = T::from_u8(0);
        let mut value2: T = T::from_u8(0);
        proof {
            value1.lemma_as_int_injective(T::from_int_v(0));
        }

        match self.load(arg1) {
            Ok(v) => {
                value1 = v;
            }
            Err(e) => {
                match self.handle_error(e, ignore_errors, no_halt_if_error, no_debug_info) {
                    Ok(_) => {}
                    Err(e2) => {
                        return Err(e2);
                    }
                }
            }
        }

        match self.load(arg2) {
            Ok(v) => {
                value2 = v;
            }
            Err(e) => {
                match self.handle_error(e, ignore_errors, no_halt_if_error, no_debug_info) {
                    Ok(_) => {}
                    Err(e2) => {
                        return Err(e2);
                    }
                }
            }
        }

        if value1.cmp_eq(value2) {
            proof {
                self.reg_zero.lemma_as_int_bounds();
                crate::arch::lemma_mod_in_range::<T>(self.reg_zero.as_int() + 1);
            }
            let ghost pre = self@;
            self.reg_zero = self.reg_zero.wadd(T::from_u8(1));
            proof {
                crate::arch::lemma_word_eq(
                    self.reg_zero,
                    (pre.reg_zero.as_int() + 1) % T::modulus(),
                );
                assert(self@ =~= MachineState { reg_zero: wadd_v(pre.reg_zero, 1), ..pre });
            }
        } else if value2.cmp_lt(value1) {
            proof {
                self.reg_zero.lemma_as_int_bounds();
                crate::arch::lemma_mod_in_range::<T>(self.reg_zero.as_int() + 2);
            }
            let ghost pre = self@;
            self.reg_zero = self.reg_zero.wadd(T::from_u8(2));
            proof {
                crate::arch::lemma_word_eq(
                    self.reg_zero,
                    (pre.reg_zero.as_int() + 2) % T::modulus(),
                );
                assert(self@ =~= MachineState { reg_zero: wadd_v(pre.reg_zero, 2), ..pre });
            }
        }
        Ok(())
    }

    /// Execute an arithmetic instruction — `kind` 0 adds, 1 subtracts,
    /// 2 multiplies, 3 divides — writing the result over `arg1`.
    #[verifier::rlimit(100)]
    #[verifier::spinoff_prover]
    fn run_arith(
        &mut self,
        kind: u8,
        arg1: T,
        arg2: T,
        ignore_errors: bool,
        no_halt_if_error: bool,
        no_debug_info: bool,
    ) -> (r: Result<(), CpuError<T>>)
        requires
            old(self).wf(),
            kind <= 3,
        ensures
            final(self).wf(),
            final(self).same_config(*old(self)),
            addr_resolved(old(self).devices@, arg1) && addr_resolved(old(self).devices@, arg2)
                ==> ({
                let pr = arith_effect(
                    old(self)@,
                    kind as int,
                    arg1,
                    arg2,
                    ignore_errors,
                    no_halt_if_error,
                    no_debug_info,
                );
                final(self)@ == pr.0 && r == pr.1
            }),
    {
        proof {
            T::lemma_arch_facts();
            T::lemma_from_int_v(0);
        }
        let mut value1: T = T::from_u8(0);
        let mut value2: T = T::from_u8(0);
        proof {
            value1.lemma_as_int_injective(T::from_int_v(0));
        }

        match self.load(arg1) {
            Ok(v) => {
                value1 = v;
            }
            Err(e) => {
                match self.handle_error(e, ignore_errors, no_halt_if_error, no_debug_info) {
                    Ok(_) => {}
                    Err(e2) => {
                        return Err(e2);
                    }
                }
            }
        }

        match self.load(arg2) {
            Ok(v) => {
                value2 = v;
            }
            Err(e) => {
                match self.handle_error(e, ignore_errors, no_halt_if_error, no_debug_info) {
                    Ok(_) => {}
                    Err(e2) => {
                        return Err(e2);
                    }
                }
            }
        }

        proof {
            value1.lemma_as_int_bounds();
            value2.lemma_as_int_bounds();
        }
        let result = if kind == 0 {
            let w = value1.wadd(value2);
            proof {
                crate::arch::lemma_mod_in_range::<T>(value1.as_int() + value2.as_int());
                crate::arch::lemma_word_eq(w, arith_val::<T>(0, value1.as_int(), value2.as_int()));
            }
            w
        } else if kind == 1 {
            let w = value1.wsub(value2);
            proof {
                crate::arch::lemma_word_eq(w, arith_val::<T>(1, value1.as_int(), value2.as_int()));
            }
            w
        } else if kind == 2 {
            let w = value1.wmul(value2);
            proof {
                vstd::arithmetic::mul::lemma_mul_nonnegative(value1.as_int(), value2.as_int());
                crate::arch::lemma_mod_in_range::<T>(value1.as_int() * value2.as_int());
                crate::arch::lemma_word_eq(w, arith_val::<T>(2, value1.as_int(), value2.as_int()));
            }
            w
        } else {
            let w = value1.wdiv(value2);
            proof {
                if value2.as_int() != 0 {
                    vstd::arithmetic::div_mod::lemma_div_pos_is_pos(
                        value1.as_int(),
                        value2.as_int(),
                    );
                    vstd::arithmetic::div_mod::lemma_div_is_ordered_by_denominator(
                        value1.as_int(),
                        1,
                        value2.as_int(),
                    );
                }
                crate::arch::lemma_word_eq(w, arith_val::<T>(3, value1.as_int(), value2.as_int()));
            }
            w
        };
        match self.push(arg1, result) {
            Ok(_) => Ok(()),
            Err(e) => self.handle_error(e, ignore_errors, no_halt_if_error, no_debug_info),
        }
    }

    /// One instruction: fetch at the control register, decode, execute,
    /// and advance the control register by the stride. An escalated fault
    /// is returned to the caller, who decides whether to halt; the
    /// advance happens only on completed ticks.
    ///
    /// Whenever the instruction consults no device — always, on a machine
    /// without devices — the new state and the result are exactly those
    /// of the specification-level [`step`].
    #[verifier::rlimit(100)]
    #[verifier::spinoff_prover]
    pub fn tick(&mut self) -> (r: Result<(), CpuError<T>>)
        requires
            old(self).wf(),
            old(self).reg_zero.as_int() + 2 <= T::instruction_size_v(),
        ensures
            final(self).wf(),
            final(self).same_config(*old(self)),
            step_deterministic(old(self)@, old(self).devices@) ==> ({
                let sr = step(old(self)@);
                final(self)@ == sr.0 && r == sr.1
            }),
    {
        proof {
            T::lemma_arch_facts();
        }
        let instruction = self.get_instruction(self.reg_zero)?;

        match instruction {
            Instruction::NoOp(_, _, _, _, _, _) => {}
            Instruction::Load(arg1, arg2, ignore_errors, no_halt_if_error, no_debug_info, _) => {
                self.run_load(arg1, arg2, ignore_errors, no_halt_if_error, no_debug_info)?;
            }
            Instruction::Copy(arg1, arg2, ignore_errors, no_halt_if_error, no_debug_info, _) => {
                self.run_copy(arg1, arg2, ignore_errors, no_halt_if_error, no_debug_info)?;
            }
            Instruction::Comp(arg1, arg2, ignore_errors, no_halt_if_error, no_debug_info, _) => {
                self.run_comp(arg1, arg2, ignore_errors, no_halt_if_error, no_debug_info)?;
            }
            Instruction::Add(arg1, arg2, ignore_errors, no_halt_if_error, no_debug_info, _) => {
                self.run_arith(0, arg1, arg2, ignore_errors, no_halt_if_error, no_debug_info)?;
            }
            Instruction::Sub(arg1, arg2, ignore_errors, no_halt_if_error, no_debug_info, _) => {
                self.run_arith(1, arg1, arg2, ignore_errors, no_halt_if_error, no_debug_info)?;
            }
            Instruction::Mul(arg1, arg2, ignore_errors, no_halt_if_error, no_debug_info, _) => {
                self.run_arith(2, arg1, arg2, ignore_errors, no_halt_if_error, no_debug_info)?;
            }
            Instruction::Div(arg1, arg2, ignore_errors, no_halt_if_error, no_debug_info, _) => {
                self.run_arith(3, arg1, arg2, ignore_errors, no_halt_if_error, no_debug_info)?;
            }
        }
        let byte_size = T::BYTE_SIZE().as_u8();
        let stride_word = T::from_u8(1 + 2 * byte_size);
        let ghost pre_advance = self@;
        proof {
            pre_advance.reg_zero.lemma_as_int_bounds();
            crate::arch::lemma_mod_in_range::<T>(pre_advance.reg_zero.as_int() + stride_v::<T>());
        }
        self.reg_zero = self.reg_zero.wadd(stride_word);
        proof {
            crate::arch::lemma_word_eq(
                self.reg_zero,
                (pre_advance.reg_zero.as_int() + stride_v::<T>()) % T::modulus(),
            );
            assert(self@ =~= advance(pre_advance));
        }
        Ok(())
    }
}

} // verus!
