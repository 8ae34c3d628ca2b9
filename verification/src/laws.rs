//! Machine-wide laws: properties that relate several operations of the
//! machine, stated and proved over the same spec functions the
//! operations' own contracts use — `step` for whole ticks, `sload` and
//! `store` for the bus, `built_from` for construction.

use vstd::prelude::*;

use crate::arch::Arch;
use crate::errors::CpuError;
use crate::instruction_cache::{
    cell_field_set, cell_field_val, lemma_cell_set_get, parsed_cells_v,
};
use crate::instructions::{Instruction, InstructionSpeed};
use crate::{
    advance, fetch_decode, inst_start_v, is_data_addr, is_inst_addr, is_static_addr,
    lemma_wadd_v_val, sload, step, store, stride_v, MachineState,
};

verus! {

/// Read-after-write: a push to a populated data address, immediately
/// followed by a load at the same address, returns the pushed word.
pub proof fn lemma_read_after_write<T: Arch>(m: MachineState<T>, a: int, v: T)
    requires
        m.data.len() == T::data_size_v(),
        is_data_addr::<T>(a),
    ensures
        sload(store(m, a, v), a) == v,
{
}

/// Compare: with both operands statically backed, a Compare tick
/// completes, leaves data and instruction cells untouched, and the
/// control register afterwards equals the program counter before plus
/// the stride — plus one more if the operands are equal, two more if the
/// first is greater, and nothing more if it is less.
pub proof fn lemma_compare_skip<T: Arch>(
    m: MachineState<T>,
    arg1: T,
    arg2: T,
    ig: bool,
    nh: bool,
    nd: bool,
    sp: InstructionSpeed<T>,
)
    requires
        fetch_decode(m, m.reg_zero.as_int()) == Instruction::Comp(arg1, arg2, ig, nh, nd, sp),
        is_static_addr::<T>(arg1.as_int()),
        is_static_addr::<T>(arg2.as_int()),
    ensures
        step(m).1 == Ok::<(), CpuError<T>>(()),
        step(m).0.data == m.data,
        step(m).0.cells == m.cells,
        step(m).0.reg_zero.as_int() == ({
            let v1 = sload(m, arg1.as_int()).as_int();
            let v2 = sload(m, arg2.as_int()).as_int();
            let skip: int = if v1 == v2 {
                1
            } else if v1 > v2 {
                2
            } else {
                0
            };
            (m.reg_zero.as_int() + stride_v::<T>() + skip) % T::modulus()
        }),
{
    T::lemma_arch_facts();
    m.reg_zero.lemma_as_int_bounds();
    let v1 = sload(m, arg1.as_int()).as_int();
    let v2 = sload(m, arg2.as_int()).as_int();
    let rz = m.reg_zero.as_int();
    if v1 == v2 {
        let m3 = MachineState { reg_zero: crate::wadd_v(m.reg_zero, 1), ..m };
        lemma_wadd_v_val(m.reg_zero, 1);
        lemma_wadd_v_val(m3.reg_zero, stride_v::<T>());
        crate::arch::lemma_mod_add_again::<T>(rz + 1, stride_v::<T>());
    } else if v1 > v2 {
        let m3 = MachineState { reg_zero: crate::wadd_v(m.reg_zero, 2), ..m };
        lemma_wadd_v_val(m.reg_zero, 2);
        lemma_wadd_v_val(m3.reg_zero, stride_v::<T>());
        crate::arch::lemma_mod_add_again::<T>(rz + 2, stride_v::<T>());
    } else {
        lemma_wadd_v_val(m.reg_zero, stride_v::<T>());
    }
}

/// Fault swallow: a Load whose target has no backing region and no
/// device, with `ignore_errors` set, completes the tick and leaves every
/// register and memory cell unchanged except the unconditional stride
/// advance of the control register.
pub proof fn lemma_fault_swallow<T: Arch, D: crate::Device<T>>(
    m: MachineState<T>,
    devices: Seq<(T, T, D)>,
    arg1: T,
    arg2: T,
    nh: bool,
    nd: bool,
    sp: InstructionSpeed<T>,
)
    requires
        fetch_decode(m, m.reg_zero.as_int()) == Instruction::Load(arg1, arg2, true, nh, nd, sp),
        !is_static_addr::<T>(arg1.as_int()),
        !crate::some_device_claims(devices, arg1.as_int()),
    ensures
        crate::step_deterministic(m, devices),
        step(m).1 == Ok::<(), CpuError<T>>(()),
        step(m).0 == advance(m),
{
}

/// Fault escalate: the same unbacked Load with `ignore_errors` and
/// `no_halt_if_error` both unset makes the tick fail with
/// `AddressNotPopulated` carrying the target address, and changes
/// nothing — not even the control register.
pub proof fn lemma_fault_escalate<T: Arch, D: crate::Device<T>>(
    m: MachineState<T>,
    devices: Seq<(T, T, D)>,
    arg1: T,
    arg2: T,
    nd: bool,
    sp: InstructionSpeed<T>,
)
    requires
        fetch_decode(m, m.reg_zero.as_int()) == Instruction::Load(arg1, arg2, false, false, nd, sp),
        !is_static_addr::<T>(arg1.as_int()),
        !crate::some_device_claims(devices, arg1.as_int()),
    ensures
        crate::step_deterministic(m, devices),
        step(m).1 == Err::<(), CpuError<T>>(CpuError::AddressNotPopulated(arg1)),
        step(m).0 == m,
{
}

/// Fault diagnostic: the same unbacked Load with `ignore_errors` unset,
/// `no_halt_if_error` set and `no_debug_info` unset completes the tick
/// and records the failing control-register value at the diagnostic
/// address 420, before the stride advance.
pub proof fn lemma_fault_diagnostic<T: Arch, D: crate::Device<T>>(
    m: MachineState<T>,
    devices: Seq<(T, T, D)>,
    arg1: T,
    arg2: T,
    sp: InstructionSpeed<T>,
)
    requires
        m.data.len() == T::data_size_v(),
        fetch_decode(m, m.reg_zero.as_int()) == Instruction::Load(
            arg1,
            arg2,
            false,
            true,
            false,
            sp,
        ),
        !is_static_addr::<T>(arg1.as_int()),
        !crate::some_device_claims(devices, arg1.as_int()),
    ensures
        crate::step_deterministic(m, devices),
        step(m).1 == Ok::<(), CpuError<T>>(()),
        step(m).0 == advance(store(m, 420, m.reg_zero)),
        sload(step(m).0, 420) == m.reg_zero,
{
    T::lemma_arch_facts();
}

/// Arithmetic: an Add whose operands are two distinct data addresses
/// leaves the wrapped sum of the two operand words at the first address
/// and the second address unchanged.
pub proof fn lemma_add_updates_first_operand<T: Arch>(
    m: MachineState<T>,
    arg1: T,
    arg2: T,
    ig: bool,
    nh: bool,
    nd: bool,
    sp: InstructionSpeed<T>,
)
    requires
        m.data.len() == T::data_size_v(),
        fetch_decode(m, m.reg_zero.as_int()) == Instruction::Add(arg1, arg2, ig, nh, nd, sp),
        is_data_addr::<T>(arg1.as_int()),
        is_data_addr::<T>(arg2.as_int()),
        arg1.as_int() != arg2.as_int(),
    ensures
        step(m).1 == Ok::<(), CpuError<T>>(()),
        sload(step(m).0, arg1.as_int()).as_int() == (sload(m, arg1.as_int()).as_int() + sload(
            m,
            arg2.as_int(),
        ).as_int()) % T::modulus(),
        sload(step(m).0, arg2.as_int()) == sload(m, arg2.as_int()),
{
    T::lemma_arch_facts();
    let v1 = sload(m, arg1.as_int());
    let v2 = sload(m, arg2.as_int());
    v1.lemma_as_int_bounds();
    v2.lemma_as_int_bounds();
    crate::arch::lemma_mod_in_range::<T>(v1.as_int() + v2.as_int());
    T::lemma_from_int_v((v1.as_int() + v2.as_int()) % T::modulus());
}

/// A Load of the word `b` into a data address, followed on the next tick
/// by a Copy from that address to a second data address, leaves `b`
/// readable at the second address.
pub proof fn lemma_load_then_copy<T: Arch>(
    m: MachineState<T>,
    addr: T,
    b: T,
    addr2: T,
    ig1: bool,
    nh1: bool,
    nd1: bool,
    sp1: InstructionSpeed<T>,
    ig2: bool,
    nh2: bool,
    nd2: bool,
    sp2: InstructionSpeed<T>,
)
    requires
        m.data.len() == T::data_size_v(),
        fetch_decode(m, m.reg_zero.as_int()) == Instruction::Load(addr, b, ig1, nh1, nd1, sp1),
        is_data_addr::<T>(addr.as_int()),
        is_data_addr::<T>(addr2.as_int()),
        ({
            let m1 = step(m).0;
            fetch_decode(m1, m1.reg_zero.as_int()) == Instruction::Copy(
                addr,
                addr2,
                ig2,
                nh2,
                nd2,
                sp2,
            )
        }),
    ensures
        step(m).1 == Ok::<(), CpuError<T>>(()),
        step(step(m).0).1 == Ok::<(), CpuError<T>>(()),
        sload(step(step(m).0).0, addr2.as_int()) == b,
{
    T::lemma_arch_facts();
}

/// Self-modifying code: a Copy whose destination falls inside the
/// instruction region rewrites exactly the cell and field the index
/// arithmetic names — the word at offset `j` becomes the copied word,
/// truncated to a byte when `j` addresses an opcode field — and every
/// other fetch offset reads what it read before.
pub proof fn lemma_self_modifying_copy<T: Arch>(
    m: MachineState<T>,
    arg1: T,
    arg2: T,
    ig: bool,
    nh: bool,
    nd: bool,
    sp: InstructionSpeed<T>,
    j: int,
)
    requires
        m.cells.len() == crate::instruction_cache::cell_cap_v::<T>(),
        fetch_decode(m, m.reg_zero.as_int()) == Instruction::Copy(arg1, arg2, ig, nh, nd, sp),
        is_data_addr::<T>(arg1.as_int()),
        is_inst_addr::<T>(arg2.as_int()),
        j == arg2.as_int() - inst_start_v::<T>(),
    ensures
        step(m).1 == Ok::<(), CpuError<T>>(()),
        step(m).0.cells == cell_field_set(m.cells, j, sload(m, arg1.as_int())),
        cell_field_val(step(m).0.cells, j) == if j % 3 == 0 {
            sload(m, arg1.as_int()).as_int() % 256
        } else {
            sload(m, arg1.as_int()).as_int()
        },
        forall|i: int|
            0 <= i <= T::instruction_size_v() && i != j ==> cell_field_val(
                #[trigger] step(m).0.cells,
                i,
            ) == cell_field_val(m.cells, i),
{
    T::lemma_arch_facts();
    let v = sload(m, arg1.as_int());
    lemma_cell_set_get(m.cells, j, v, j);
    assert forall|i: int| 0 <= i <= T::instruction_size_v() && i != j implies cell_field_val(
        #[trigger] step(m).0.cells,
        i,
    ) == cell_field_val(m.cells, i) by {
        lemma_cell_set_get(m.cells, j, v, i);
    }
}

/// Round-trip: immediately after construction, every word-granular index
/// into the parsed image reads back exactly what the source buffer holds
/// at the corresponding byte offset: the opcode byte for field 0, the
/// big-endian-decoded operands for fields 1 and 2.
pub proof fn lemma_build_round_trip<T: Arch>(cells: Seq<(u8, T, T)>, raw: Seq<u8>, i: int)
    requires
        crate::instruction_cache::built_from(cells, raw),
        0 <= i < 3 * parsed_cells_v::<T>(),
    ensures
        i % 3 == 0 ==> cell_field_val(cells, i) == raw[(i / 3) * stride_v::<T>()],
        i % 3 == 1 ==> cell_field_val(cells, i) == crate::arch::be_val(
            raw.subrange(
                (i / 3) * stride_v::<T>() + 1,
                (i / 3) * stride_v::<T>() + 1 + T::byte_size_v(),
            ),
        ),
        i % 3 == 2 ==> cell_field_val(cells, i) == crate::arch::be_val(
            raw.subrange(
                (i / 3) * stride_v::<T>() + 1 + T::byte_size_v(),
                (i / 3) * stride_v::<T>() + 1 + 2 * T::byte_size_v(),
            ),
        ),
{
    T::lemma_arch_facts();
    assert(0 <= i / 3 < parsed_cells_v::<T>());
}

} // verus!
