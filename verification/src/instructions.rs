//! The instruction decoder: a packed triple (opcode byte, two operand
//! words) becomes a tagged instruction with operands and flags.
//!
//! Bit layout of the opcode byte: the top three bits select the class
//! (000 NoOp, 001 Load, 010 Copy, 011 Compare, 100 Add, 101 Sub, 110 Mul,
//! 111 Div); bit 4 sets `ignore_errors`, bit 3 sets `no_halt_if_error`,
//! bit 2 sets `no_debug_info`; bits 0 and 1 select a speed tag, decoded
//! and carried but not interpreted by the execution engine.

use vstd::prelude::*;

use crate::arch::Arch;
use crate::errors::CpuError;

verus! {

/// A decoded instruction: the class, two operand words, the three error
/// flags (`ignore_errors`, `no_halt_if_error`, `no_debug_info`) and the
/// inert speed tag. Instructions are transient: decoded fresh every tick,
/// never persisted.
#[derive(Debug)]
pub enum Instruction<T: Arch> {
    NoOp(T, T, bool, bool, bool, InstructionSpeed<T>),
    Load(T, T, bool, bool, bool, InstructionSpeed<T>),
    Copy(T, T, bool, bool, bool, InstructionSpeed<T>),
    Comp(T, T, bool, bool, bool, InstructionSpeed<T>),
    Add(T, T, bool, bool, bool, InstructionSpeed<T>),
    Sub(T, T, bool, bool, bool, InstructionSpeed<T>),
    Mul(T, T, bool, bool, bool, InstructionSpeed<T>),
    Div(T, T, bool, bool, bool, InstructionSpeed<T>),
}

/// The speed tag from the low two opcode bits. The two-bit encoding is
/// total, so `Unknown` is unreachable under the current layout; it is kept
/// for forward compatibility.
#[derive(Debug)]
pub enum InstructionSpeed<T: Arch> {
    Fast,
    Medium,
    Slow,
    Halt,
    Unknown(T),
}

/// What the low two opcode bits decode to.
pub open spec fn speed_spec<T: Arch>(raw: u8) -> InstructionSpeed<T> {
    if raw & 0b0000_0011 == 0 {
        InstructionSpeed::Fast
    } else if raw & 0b0000_0011 == 1 {
        InstructionSpeed::Medium
    } else if raw & 0b0000_0011 == 2 {
        InstructionSpeed::Slow
    } else {
        InstructionSpeed::Halt
    }
}

/// What a packed triple decodes to. The three-bit class encoding is total:
/// decoding never fails.
pub open spec fn decode_spec<T: Arch>(op: u8, arg1: T, arg2: T) -> Instruction<T> {
    let ignore_errors = op & 0b0001_0000 == 0b0001_0000;
    let no_halt_if_error = op & 0b0000_1000 == 0b0000_1000;
    let no_debug_info = op & 0b0000_0100 == 0b0000_0100;
    let speed = speed_spec(op);
    if op & 0b1110_0000 == 0b0000_0000 {
        Instruction::NoOp(arg1, arg2, ignore_errors, no_halt_if_error, no_debug_info, speed)
    } else if op & 0b1110_0000 == 0b0010_0000 {
        Instruction::Load(arg1, arg2, ignore_errors, no_halt_if_error, no_debug_info, speed)
    } else if op & 0b1110_0000 == 0b0100_0000 {
        Instruction::Copy(arg1, arg2, ignore_errors, no_halt_if_error, no_debug_info, speed)
    } else if op & 0b1110_0000 == 0b0110_0000 {
        Instruction::Comp(arg1, arg2, ignore_errors, no_halt_if_error, no_debug_info, speed)
    } else if op & 0b1110_0000 == 0b1000_0000 {
        Instruction::Add(arg1, arg2, ignore_errors, no_halt_if_error, no_debug_info, speed)
    } else if op & 0b1110_0000 == 0b1010_0000 {
        Instruction::Sub(arg1, arg2, ignore_errors, no_halt_if_error, no_debug_info, speed)
    } else if op & 0b1110_0000 == 0b1100_0000 {
        Instruction::Mul(arg1, arg2, ignore_errors, no_halt_if_error, no_debug_info, speed)
    } else {
        Instruction::Div(arg1, arg2, ignore_errors, no_halt_if_error, no_debug_info, speed)
    }
}

impl<T: Arch> InstructionSpeed<T> {
    /// Decode the speed tag from the low two bits of the opcode byte.
    /// Total under the current encoding: the error arm is unreachable.
    fn from_u8(raw: u8) -> (r: Result<InstructionSpeed<T>, CpuError<T>>)
        ensures
            r == Ok::<InstructionSpeed<T>, CpuError<T>>(speed_spec::<T>(raw)),
    {
        proof {
            assert(raw & 0b0000_0011 < 4) by (bit_vector);
        }
        match raw & 0b0000_0011 {
            0 => Ok(InstructionSpeed::Fast),
            1 => Ok(InstructionSpeed::Medium),
            2 => Ok(InstructionSpeed::Slow),
            3 => Ok(InstructionSpeed::Halt),
            _ => Err(CpuError::IllegalInstructionSpeed(T::from_u8(raw))),
        }
    }
}

impl<T: Arch> Instruction<T> {
    /// Decode a packed triple: class from the top three opcode bits, flags
    /// from the middle bits, speed from the low two. Never fails under the
    /// current encoding: every three-bit class is defined.
    pub fn from_tuple(tuple: (u8, T, T)) -> (r: Result<Instruction<T>, CpuError<T>>)
        ensures
            r == Ok::<Instruction<T>, CpuError<T>>(decode_spec(tuple.0, tuple.1, tuple.2)),
    {
        let instruction_type = tuple.0 & 0b1110_0000;
        let ignore_errors = if tuple.0 & 0b0001_0000 == 0b0001_0000 {
            true
        } else {
            false
        };

        let no_halt_if_error = if tuple.0 & 0b0000_1000 == 0b0000_1000 {
            true
        } else {
            false
        };

        let no_debug_info = if tuple.0 & 0b0000_0100 == 0b0000_0100 {
            true
        } else {
            false
        };

        proof {
            let op = tuple.0;
            assert(op & 0b1110_0000 == 0b0000_0000 || op & 0b1110_0000 == 0b0010_0000
                || op & 0b1110_0000 == 0b0100_0000 || op & 0b1110_0000 == 0b0110_0000
                || op & 0b1110_0000 == 0b1000_0000 || op & 0b1110_0000 == 0b1010_0000
                || op & 0b1110_0000 == 0b1100_0000 || op & 0b1110_0000 == 0b1110_0000)
                by (bit_vector);
        }
        match instruction_type {
            0b0000_0000 => Ok(Instruction::NoOp(
                tuple.1,
                tuple.2,
                ignore_errors,
                no_halt_if_error,
                no_debug_info,
                InstructionSpeed::from_u8(tuple.0)?,
            )),
            0b0010_0000 => Ok(Instruction::Load(
                tuple.1,
                tuple.2,
                ignore_errors,
                no_halt_if_error,
                no_debug_info,
                InstructionSpeed::from_u8(tuple.0)?,
            )),
            0b0100_0000 => Ok(Instruction::Copy(
                tuple.1,
                tuple.2,
                ignore_errors,
                no_halt_if_error,
                no_debug_info,
                InstructionSpeed::from_u8(tuple.0)?,
            )),
            0b0110_0000 => Ok(Instruction::Comp(
                tuple.1,
                tuple.2,
                ignore_errors,
                no_halt_if_error,
                no_debug_info,
                InstructionSpeed::from_u8(tuple.0)?,
            )),
            0b1000_0000 => Ok(Instruction::Add(
                tuple.1,
                tuple.2,
                ignore_errors,
                no_halt_if_error,
                no_debug_info,
                InstructionSpeed::from_u8(tuple.0)?,
            )),
            0b1010_0000 => Ok(Instruction::Sub(
                tuple.1,
                tuple.2,
                ignore_errors,
                no_halt_if_error,
                no_debug_info,
                InstructionSpeed::from_u8(tuple.0)?,
            )),
            0b1100_0000 => Ok(Instruction::Mul(
                tuple.1,
                tuple.2,
                ignore_errors,
                no_halt_if_error,
                no_debug_info,
                InstructionSpeed::from_u8(tuple.0)?,
            )),
            0b1110_0000 => Ok(Instruction::Div(
                tuple.1,
                tuple.2,
                ignore_errors,
                no_halt_if_error,
                no_debug_info,
                InstructionSpeed::from_u8(tuple.0)?,
            )),
            _ => Err(CpuError::IllegalInstruction(T::from_u8(tuple.0))),
        }
    }
}

} // verus!
