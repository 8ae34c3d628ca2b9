//! The bus: the single chokepoint for every read and write.
//!
//! Both operations partition the address space the same way: address zero
//! is the control register; the data region is offset by one into the
//! data segment; the instruction region is offset into the instruction
//! cache; everything else is scanned against the device list, first match
//! in registration order winning. An address no device claims fails with
//! `AddressNotPopulated`. No other component does address arithmetic.

use vstd::prelude::*;

use crate::arch::Arch;
use crate::errors::CpuError;
use crate::{is_static_addr, sload, store, Cpu, Device};

verus! {

impl<T: Arch, D: Device<T>> Cpu<T, D> {
    /// Read the word at `arg`. Total over the statically backed regions;
    /// a device's own answer is propagated unchanged; an address nothing
    /// backs fails with `AddressNotPopulated`, if and only if.
    pub fn load(&self, arg: T) -> (r: Result<T, CpuError<T>>)
        requires
            self.wf(),
        ensures
            is_static_addr::<T>(arg.as_int()) ==> r == Ok::<T, CpuError<T>>(
                sload(self@, arg.as_int()),
            ),
            !is_static_addr::<T>(arg.as_int()) && !self.claimed(arg.as_int()) ==> r
                == Err::<T, CpuError<T>>(CpuError::AddressNotPopulated(arg)),
    {
        proof {
            T::lemma_arch_facts();
            arg.lemma_as_int_bounds();
        }
        if arg.cmp_eq(self.REG_ZERO) {
            Ok(self.reg_zero)
        } else if self.DATA_START.cmp_le(arg) && arg.cmp_le(self.DATA_END) {
            Ok(self.data_cache[arg.wsub(self.DATA_START).as_usize()])
        } else if self.INSTRUCTION_START.cmp_le(arg) && arg.cmp_le(self.INSTRUCTION_END) {
            Ok(self.instruction_cache.get(arg.wsub(self.INSTRUCTION_START)))
        } else {
            let mut idx: usize = 0;
            while idx < self.devices.len()
                invariant
                    !is_static_addr::<T>(arg.as_int()),
                    idx <= self.devices@.len(),
                    forall|j: int|
                        0 <= j < idx ==> !((#[trigger] self.devices@[j]).0.as_int()
                            <= arg.as_int() <= self.devices@[j].1.as_int()),
                decreases self.devices@.len() - idx,
            {
                let entry = &self.devices[idx];
                if entry.0.cmp_le(arg) && arg.cmp_le(entry.1) {
                    return entry.2.load(arg);
                }
                idx += 1;
            }
            Err(CpuError::AddressNotPopulated(arg))
        }
    }

    /// Write `arg2` at address `arg1`. Writes to the statically backed
    /// regions always succeed and change exactly the addressed word; a
    /// device's own answer is propagated unchanged and leaves the machine
    /// untouched; an address nothing backs fails with
    /// `AddressNotPopulated`, if and only if, and changes nothing.
    pub fn push(&mut self, arg1: T, arg2: T) -> (r: Result<(), CpuError<T>>)
        requires
            old(self).wf(),
        ensures
            final(self).wf(),
            final(self).same_config(*old(self)),
            is_static_addr::<T>(arg1.as_int()) ==> final(self)@ == store(
                old(self)@,
                arg1.as_int(),
                arg2,
            ) && r == Ok::<(), CpuError<T>>(()),
            !is_static_addr::<T>(arg1.as_int()) ==> final(self)@ == old(self)@,
            !is_static_addr::<T>(arg1.as_int()) && !old(self).claimed(arg1.as_int()) ==> r
                == Err::<(), CpuError<T>>(CpuError::AddressNotPopulated(arg1)),
    {
        proof {
            T::lemma_arch_facts();
            arg1.lemma_as_int_bounds();
        }
        if self.REG_ZERO.cmp_eq(arg1) {
            self.reg_zero = arg2;
            proof {
                assert(self@ =~= store(old(self)@, arg1.as_int(), arg2));
            }
            Ok(())
        } else if self.DATA_START.cmp_le(arg1) && arg1.cmp_le(self.DATA_END) {
            let i = arg1.wsub(self.DATA_START).as_usize();
            self.data_cache.set(i, arg2);
            proof {
                assert(self@ =~= store(old(self)@, arg1.as_int(), arg2));
            }
            Ok(())
        } else if self.INSTRUCTION_START.cmp_le(arg1) && arg1.cmp_le(self.INSTRUCTION_END) {
            let off = arg1.wsub(self.INSTRUCTION_START);
            self.instruction_cache.set(off, arg2);
            proof {
                assert(self@ =~= store(old(self)@, arg1.as_int(), arg2));
            }
            Ok(())
        } else {
            let mut idx: usize = 0;
            while idx < self.devices.len()
                invariant
                    *self == *old(self),
                    self.wf(),
                    !is_static_addr::<T>(arg1.as_int()),
                    idx <= self.devices@.len(),
                    forall|j: int|
                        0 <= j < idx ==> !((#[trigger] self.devices@[j]).0.as_int()
                            <= arg1.as_int() <= self.devices@[j].1.as_int()),
                decreases self.devices@.len() - idx,
            {
                let entry = &self.devices[idx];
                if entry.0.cmp_le(arg1) && arg1.cmp_le(entry.1) {
                    return entry.2.push(arg1, arg2);
                }
                idx += 1;
            }
            Err(CpuError::AddressNotPopulated(arg1))
        }
    }
}

} // verus!
