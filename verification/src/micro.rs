//! The fixed 8-bit machine: a single-byte word, a 127-byte instruction
//! memory, a 64-byte data segment, and a three-byte instruction format
//! with per-operand signedness flags.
//!
//! Addresses: 0 is the control register, 1 to 126 the instruction
//! memory, 128 to 191 the data segment. The control register advances by
//! three — one instruction — per tick; the three compare instructions
//! skip one further instruction when their test fails.

use vstd::prelude::*;

verus! {

/// A peripheral marker for this machine; the 8-bit bus never routes to a
/// device, so nothing is asked of one.
pub trait Device {

}

impl Device for () {

}

/// Whether the machine halted; the 8-bit engine always keeps running and
/// leaves stopping to its driver.
pub enum Halted {
    Running,
    Errored,
    Halted,
}

/// A decoded 8-bit instruction: four flag bits (`halt_on_error`,
/// `store_debug_info`, and the two operand signedness flags), then up to
/// two operand addresses.
#[derive(Debug)]
pub enum Instruction {
    NoOp(bool, bool, bool, bool),
    And(bool, bool, bool, bool, u8, u8),
    Or(bool, bool, bool, bool, u8, u8),
    Not(bool, bool, bool, bool, u8),
    Add(bool, bool, bool, bool, u8, u8),
    Sub(bool, bool, bool, bool, u8, u8),
    Mul(bool, bool, bool, bool, u8, u8),
    Div(bool, bool, bool, bool, u8, u8),
    SL(bool, bool, bool, bool, u8),
    SR(bool, bool, bool, bool, u8),
    RL(bool, bool, bool, bool, u8),
    RR(bool, bool, bool, bool, u8),
    Copy(bool, bool, bool, bool, u8, u8),
    CompEq(bool, bool, bool, bool, u8, u8),
    CompGt(bool, bool, bool, bool, u8, u8),
    CompLt(bool, bool, bool, bool, u8, u8),
}

/// What three raw bytes decode to: the low four opcode bits select the
/// class, the high four are the flags, bytes two and three the operands.
pub open spec fn decode3_spec(b0: u8, b1: u8, b2: u8) -> Instruction {
    let opcode = b0 & 0b0000_1111;
    let halt_on_error = b0 & 0b1000_0000 == 0b1000_0000;
    let store_debug_info = b0 & 0b0100_0000 == 0b0100_0000;
    let arg1_signed = b0 & 0b0010_0000 == 0b0010_0000;
    let arg2_signed = b0 & 0b0001_0000 == 0b0001_0000;
    if opcode == 0 {
        Instruction::NoOp(halt_on_error, store_debug_info, arg1_signed, arg2_signed)
    } else if opcode == 1 {
        Instruction::And(halt_on_error, store_debug_info, arg1_signed, arg2_signed, b1, b2)
    } else if opcode == 2 {
        Instruction::Or(halt_on_error, store_debug_info, arg1_signed, arg2_signed, b1, b2)
    } else if opcode == 3 {
        Instruction::Not(halt_on_error, store_debug_info, arg1_signed, arg2_signed, b1)
    } else if opcode == 4 {
        Instruction::Add(halt_on_error, store_debug_info, arg1_signed, arg2_signed, b1, b2)
    } else if opcode == 5 {
        Instruction::Sub(halt_on_error, store_debug_info, arg1_signed, arg2_signed, b1, b2)
    } else if opcode == 6 {
        Instruction::Mul(halt_on_error, store_debug_info, arg1_signed, arg2_signed, b1, b2)
    } else if opcode == 7 {
        Instruction::Div(halt_on_error, store_debug_info, arg1_signed, arg2_signed, b1, b2)
    } else if opcode == 8 {
        Instruction::SL(halt_on_error, store_debug_info, arg1_signed, arg2_signed, b1)
    } else if opcode == 9 {
        Instruction::SR(halt_on_error, store_debug_info, arg1_signed, arg2_signed, b1)
    } else if opcode == 10 {
        Instruction::RL(halt_on_error, store_debug_info, arg1_signed, arg2_signed, b1)
    } else if opcode == 11 {
        Instruction::RR(halt_on_error, store_debug_info, arg1_signed, arg2_signed, b1)
    } else if opcode == 12 {
        Instruction::Copy(halt_on_error, store_debug_info, arg1_signed, arg2_signed, b1, b2)
    } else if opcode == 13 {
        Instruction::CompEq(halt_on_error, store_debug_info, arg1_signed, arg2_signed, b1, b2)
    } else if opcode == 14 {
        Instruction::CompGt(halt_on_error, store_debug_info, arg1_signed, arg2_signed, b1, b2)
    } else {
        Instruction::CompLt(halt_on_error, store_debug_info, arg1_signed, arg2_signed, b1, b2)
    }
}

impl Instruction {
    /// Decode one three-byte instruction. Total: every four-bit opcode is
    /// defined.
    pub fn from_3bytes(bytes: [u8; 3]) -> (r: Instruction)
        ensures
            r == decode3_spec(bytes[0], bytes[1], bytes[2]),
    {
        let opcode = bytes[0] & 0b0000_1111;
        let halt_on_error = bytes[0] & 0b1000_0000 == 0b1000_0000;
        let store_debug_info = bytes[0] & 0b0100_0000 == 0b0100_0000;
        let arg1_signed = bytes[0] & 0b0010_0000 == 0b0010_0000;
        let arg2_signed = bytes[0] & 0b0001_0000 == 0b0001_0000;
        let arg1 = bytes[1];
        let arg2 = bytes[2];

        proof {
            let b = bytes[0];
            assert(b & 0b0000_1111 < 16) by (bit_vector);
        }
        match opcode {
            0 => Instruction::NoOp(halt_on_error, store_debug_info, arg1_signed, arg2_signed),
            1 => Instruction::And(
                halt_on_error,
                store_debug_info,
                arg1_signed,
                arg2_signed,
                arg1,
                arg2,
            ),
            2 => Instruction::Or(
                halt_on_error,
                store_debug_info,
                arg1_signed,
                arg2_signed,
                arg1,
                arg2,
            ),
            3 => Instruction::Not(
                halt_on_error,
                store_debug_info,
                arg1_signed,
                arg2_signed,
                arg1,
            ),
            4 => Instruction::Add(
                halt_on_error,
                store_debug_info,
                arg1_signed,
                arg2_signed,
                arg1,
                arg2,
            ),
            5 => Instruction::Sub(
                halt_on_error,
                store_debug_info,
                arg1_signed,
                arg2_signed,
                arg1,
                arg2,
            ),
            6 => Instruction::Mul(
                halt_on_error,
                store_debug_info,
                arg1_signed,
                arg2_signed,
                arg1,
                arg2,
            ),
            7 => Instruction::Div(
                halt_on_error,
                store_debug_info,
                arg1_signed,
                arg2_signed,
                arg1,
                arg2,
            ),
            8 => Instruction::SL(
                halt_on_error,
                store_debug_info,
                arg1_signed,
                arg2_signed,
                arg1,
            ),
            9 => Instruction::SR(
                halt_on_error,
                store_debug_info,
                arg1_signed,
                arg2_signed,
                arg1,
            ),
            10 => Instruction::RL(
                halt_on_error,
                store_debug_info,
                arg1_signed,
                arg2_signed,
                arg1,
            ),
            11 => Instruction::RR(
                halt_on_error,
                store_debug_info,
                arg1_signed,
                arg2_signed,
                arg1,
            ),
            12 => Instruction::Copy(
                halt_on_error,
                store_debug_info,
                arg1_signed,
                arg2_signed,
                arg1,
                arg2,
            ),
            13 => Instruction::CompEq(
                halt_on_error,
                store_debug_info,
                arg1_signed,
                arg2_signed,
                arg1,
                arg2,
            ),
            14 => Instruction::CompGt(
                halt_on_error,
                store_debug_info,
                arg1_signed,
                arg2_signed,
                arg1,
                arg2,
            ),
            _ => Instruction::CompLt(
                halt_on_error,
                store_debug_info,
                arg1_signed,
                arg2_signed,
                arg1,
                arg2,
            ),
        }
    }
}

/// The signed reading of a byte: two's complement.
pub open spec fn signed_val(b: u8) -> int {
    if b < 128 {
        b as int
    } else {
        b as int - 256
    }
}

/// The byte that stores a value: its remainder modulo 256, which is the
/// two's complement image of a negative value.
pub open spec fn byte_of(v: int) -> u8 {
    (v % 256) as u8
}

/// The magnitude of a value.
pub open spec fn abs_v(a: int) -> int {
    if a < 0 {
        -a
    } else {
        a
    }
}

/// Division truncating toward zero, as the machine's signed division
/// behaves: the quotient of the magnitudes, negated when exactly one
/// operand is negative.
pub open spec fn tdiv(a: int, b: int) -> int {
    if (a < 0) != (b < 0) {
        -(abs_v(a) / abs_v(b))
    } else {
        abs_v(a) / abs_v(b)
    }
}

/// The value of an operand byte under its signedness flag.
pub open spec fn operand_val(b: u8, signed: bool) -> int {
    if signed {
        signed_val(b)
    } else {
        b as int
    }
}

/// The mathematical state of the 8-bit machine.
#[verifier::ext_equal]
pub struct MicroState {
    pub reg_zero: u8,
    pub inst_mem: Seq<u8>,
    pub data_mem: Seq<u8>,
}

/// An address the 8-bit bus can serve: the control register at zero, the
/// backed part of the instruction memory, or the data segment.
pub open spec fn micro_valid_addr(addr: u8) -> bool {
    addr <= 126 || (128 <= addr && addr <= 191)
}

/// The byte a load from a valid address returns.
pub open spec fn mload(s: MicroState, addr: u8) -> u8
    recommends
        micro_valid_addr(addr),
{
    if addr == 0 {
        s.reg_zero
    } else if addr <= 127 {
        s.inst_mem[addr as int]
    } else {
        s.data_mem[addr - 128]
    }
}

/// The state after a push of `v` to a valid address.
pub open spec fn mstore(s: MicroState, addr: u8, v: u8) -> MicroState
    recommends
        micro_valid_addr(addr),
{
    if addr == 0 {
        MicroState { reg_zero: v, ..s }
    } else if addr <= 127 {
        MicroState { inst_mem: s.inst_mem.update(addr as int, v), ..s }
    } else {
        MicroState { data_mem: s.data_mem.update(addr - 128, v), ..s }
    }
}

/// The state an instruction leaves before the unconditional advance of
/// three. Meaningful under `process_ok`.
pub open spec fn process_pre_advance(s: MicroState, inst: Instruction) -> MicroState {
    match inst {
        Instruction::NoOp(_, _, _, _) => s,
        Instruction::And(_, _, _, _, arg1, arg2) => mstore(
            s,
            arg1,
            mload(s, arg1) & mload(s, arg2),
        ),
        Instruction::Or(_, _, _, _, arg1, arg2) => mstore(
            s,
            arg1,
            mload(s, arg1) | mload(s, arg2),
        ),
        Instruction::Not(_, _, _, _, arg1) => mstore(s, arg1, !mload(s, arg1)),
        Instruction::Add(_, _, _, _, arg1, arg2) => mstore(
            s,
            arg1,
            byte_of(mload(s, arg1) + mload(s, arg2)),
        ),
        Instruction::Sub(_, _, _, _, arg1, arg2) => mstore(
            s,
            arg1,
            byte_of(mload(s, arg1) - mload(s, arg2)),
        ),
        Instruction::Mul(_, _, _, _, arg1, arg2) => mstore(
            s,
            arg1,
            byte_of(mload(s, arg1) * mload(s, arg2)),
        ),
        Instruction::Div(_, _, s1, s2, arg1, arg2) => mstore(
            s,
            arg1,
            byte_of(tdiv(operand_val(mload(s, arg1), s1), operand_val(mload(s, arg2), s2))),
        ),
        Instruction::SL(_, _, _, _, arg1) => mstore(s, arg1, mload(s, arg1) << 1),
        Instruction::SR(_, _, _, _, arg1) => mstore(s, arg1, mload(s, arg1) >> 1),
        Instruction::RL(_, _, _, _, arg1) => mstore(
            s,
            arg1,
            (mload(s, arg1) << 1) | (mload(s, arg1) >> 7),
        ),
        Instruction::RR(_, _, _, _, arg1) => mstore(
            s,
            arg1,
            (mload(s, arg1) >> 1) | (mload(s, arg1) << 7),
        ),
        Instruction::Copy(_, _, _, _, arg1, arg2) => mstore(s, arg2, mload(s, arg1)),
        Instruction::CompEq(_, _, _, _, arg1, arg2) => if mload(s, arg1) != mload(s, arg2) {
            MicroState { reg_zero: (s.reg_zero + 3) as u8, ..s }
        } else {
            s
        },
        Instruction::CompGt(_, _, _, _, arg1, arg2) => if mload(s, arg1) <= mload(s, arg2) {
            MicroState { reg_zero: (s.reg_zero + 3) as u8, ..s }
        } else {
            s
        },
        Instruction::CompLt(_, _, _, _, arg1, arg2) => if mload(s, arg1) >= mload(s, arg2) {
            MicroState { reg_zero: (s.reg_zero + 3) as u8, ..s }
        } else {
            s
        },
    }
}

/// The state a processed instruction leaves: its own effect, then the
/// control register advanced by three.
pub open spec fn process_spec(s: MicroState, inst: Instruction) -> MicroState {
    let s2 = process_pre_advance(s, inst);
    MicroState { reg_zero: (s2.reg_zero + 3) as u8, ..s2 }
}

/// When an instruction runs without a machine fault: its operand
/// addresses are backed, its arithmetic stays inside the width its
/// signedness mode gives it, its divisor is nonzero, and the control
/// register does not run off the end of its byte.
pub open spec fn process_ok(s: MicroState, inst: Instruction) -> bool {
    process_pre_advance(s, inst).reg_zero + 3 <= 255 && match inst {
        Instruction::NoOp(_, _, _, _) => true,
        Instruction::And(_, _, _, _, arg1, arg2) => micro_valid_addr(arg1) && micro_valid_addr(
            arg2,
        ),
        Instruction::Or(_, _, _, _, arg1, arg2) => micro_valid_addr(arg1) && micro_valid_addr(
            arg2,
        ),
        Instruction::Not(_, _, _, _, arg1) => micro_valid_addr(arg1),
        Instruction::Add(_, _, s1, s2, arg1, arg2) => micro_valid_addr(arg1) && micro_valid_addr(
            arg2,
        ) && {
            let v1 = operand_val(mload(s, arg1), s1);
            let v2 = operand_val(mload(s, arg2), s2);
            if s1 && s2 {
                -128 <= v1 + v2 <= 127
            } else if !s1 && !s2 {
                v1 + v2 <= 255
            } else {
                true
            }
        },
        Instruction::Sub(_, _, s1, s2, arg1, arg2) => micro_valid_addr(arg1) && micro_valid_addr(
            arg2,
        ) && {
            let v1 = operand_val(mload(s, arg1), s1);
            let v2 = operand_val(mload(s, arg2), s2);
            if s1 && s2 {
                -128 <= v1 - v2 <= 127
            } else if !s1 && !s2 {
                v1 >= v2
            } else {
                true
            }
        },
        Instruction::Mul(_, _, s1, s2, arg1, arg2) => micro_valid_addr(arg1) && micro_valid_addr(
            arg2,
        ) && {
            let v1 = operand_val(mload(s, arg1), s1);
            let v2 = operand_val(mload(s, arg2), s2);
            if s1 && s2 {
                -128 <= v1 * v2 <= 127
            } else if !s1 && !s2 {
                v1 * v2 <= 255
            } else {
                true
            }
        },
        Instruction::Div(_, _, s1, s2, arg1, arg2) => micro_valid_addr(arg1) && micro_valid_addr(
            arg2,
        ) && {
            let v1 = operand_val(mload(s, arg1), s1);
            let v2 = operand_val(mload(s, arg2), s2);
            v2 != 0 && !(s1 && s2 && v1 == -128 && v2 == -1)
        },
        Instruction::SL(_, _, _, _, arg1) => micro_valid_addr(arg1),
        Instruction::SR(_, _, _, _, arg1) => micro_valid_addr(arg1),
        Instruction::RL(_, _, _, _, arg1) => micro_valid_addr(arg1),
        Instruction::RR(_, _, _, _, arg1) => micro_valid_addr(arg1),
        Instruction::Copy(_, _, _, _, arg1, arg2) => micro_valid_addr(arg1) && micro_valid_addr(
            arg2,
        ),
        Instruction::CompEq(_, _, _, _, arg1, arg2) => micro_valid_addr(arg1) && micro_valid_addr(
            arg2,
        ) && (mload(s, arg1) != mload(s, arg2) ==> s.reg_zero + 3 <= 255),
        Instruction::CompGt(_, _, _, _, arg1, arg2) => micro_valid_addr(arg1) && micro_valid_addr(
            arg2,
        ) && (mload(s, arg1) <= mload(s, arg2) ==> s.reg_zero + 3 <= 255),
        Instruction::CompLt(_, _, _, _, arg1, arg2) => micro_valid_addr(arg1) && micro_valid_addr(
            arg2,
        ) && (mload(s, arg1) >= mload(s, arg2) ==> s.reg_zero + 3 <= 255),
    }
}

/// The 8-bit machine: one control register that is both program counter
/// and skip accumulator, 127 bytes of instruction memory, 64 bytes of
/// data, and an inert device list.
pub struct CPU<D: Device> {
    pub reg_zero: u8,
    pub inst_mem: [u8; 127],
    pub data_mem: [u8; 64],
    pub devices: Vec<D>,
}

impl<D: Device> View for CPU<D> {
    type V = MicroState;

    open spec fn view(&self) -> MicroState {
        MicroState { reg_zero: self.reg_zero, inst_mem: self.inst_mem@, data_mem: self.data_mem@ }
    }
}

impl<D: Device> CPU<D> {
    /// Build a machine over an instruction image, with a zeroed data
    /// segment and the control register at zero.
    pub fn new(inst_mem: [u8; 127], devices: Vec<D>) -> (r: CPU<D>)
        ensures
            r.reg_zero == 0,
            r.inst_mem@ == inst_mem@,
            forall|i: int| 0 <= i < 64 ==> r.data_mem@[i] == 0,
            r.devices == devices,
    {
        CPU { reg_zero: 0, inst_mem, data_mem: [0; 64], devices }
    }

    /// Fetch and decode the three bytes at the control register.
    pub fn fetch(&self) -> (r: Instruction)
        requires
            self.reg_zero + 2 <= 126,
        ensures
            r == decode3_spec(
                self.inst_mem@[self.reg_zero as int],
                self.inst_mem@[self.reg_zero + 1],
                self.inst_mem@[self.reg_zero + 2],
            ),
    {
        Instruction::from_3bytes(
            [
                self.inst_mem[self.reg_zero as usize],
                self.inst_mem[(self.reg_zero + 1) as usize],
                self.inst_mem[(self.reg_zero + 2) as usize],
            ],
        )
    }

    /// Read the byte a valid address holds.
    fn load(&mut self, addr: u8) -> (r: u8)
        requires
            micro_valid_addr(addr),
        ensures
            *final(self) == *old(self),
            r == mload(old(self)@, addr),
    {
        match addr {
            0 => self.reg_zero,
            1..=127 => self.inst_mem[addr as usize],
            _ => self.data_mem[(addr - 128) as usize],
        }
    }

    /// Write a byte to a valid address.
    fn push(&mut self, addr: u8, data: u8)
        requires
            micro_valid_addr(addr),
        ensures
            final(self)@ == mstore(old(self)@, addr, data),
            final(self).devices == old(self).devices,
    {
        match addr {
            0 => {
                self.reg_zero = data;
            },
            1..=127 => {
                self.inst_mem[addr as usize] = data;
            },
            _ => {
                self.data_mem[(addr - 128) as usize] = data;
            },
        }
        proof {
            assert(self@ =~= mstore(old(self)@, addr, data));
        }
    }

    /// Divide two operand bytes under their signedness flags, truncating
    /// toward zero, in two's complement.
    fn div_bytes(data1: u8, s1: bool, data2: u8, s2: bool) -> (r: u8)
        requires
            operand_val(data2, s2) != 0,
            !(s1 && s2 && operand_val(data1, s1) == -128 && operand_val(data2, s2) == -1),
        ensures
            r == byte_of(tdiv(operand_val(data1, s1), operand_val(data2, s2))),
    {
        let neg1 = s1 && data1 >= 128;
        let neg2 = s2 && data2 >= 128;
        let mag1: u16 = if neg1 {
            256 - (data1 as u16)
        } else {
            data1 as u16
        };
        let mag2: u16 = if neg2 {
            256 - (data2 as u16)
        } else {
            data2 as u16
        };
        let q: u16 = mag1 / mag2;
        if neg1 != neg2 {
            ((256 - q) % 256) as u8
        } else {
            q as u8
        }
    }

    /// Execute one decoded instruction against the machine and advance
    /// the control register by three. Always reports the machine running:
    /// stopping is the driver's decision.
    fn process(&mut self, inst: Instruction) -> (r: Halted)
        requires
            process_ok(old(self)@, inst),
        ensures
            final(self)@ == process_spec(old(self)@, inst),
            final(self).devices == old(self).devices,
            r is Running,
    {
        match inst {
            Instruction::NoOp(_, _, _, _) => (),
            Instruction::And(_, _, _, _, arg1, arg2) => {
                let data1 = self.load(arg1);
                let data2 = self.load(arg2);
                self.push(arg1, data1 & data2);
            }
            Instruction::Or(_, _, _, _, arg1, arg2) => {
                let data1 = self.load(arg1);
                let data2 = self.load(arg2);
                self.push(arg1, data1 | data2);
            }
            Instruction::Not(_, _, _, _, arg1) => {
                let data1 = self.load(arg1);
                self.push(arg1, !data1);
            }
            Instruction::Add(_, _, _, _, arg1, arg2) => {
                let data1 = self.load(arg1);
                let data2 = self.load(arg2);
                self.push(arg1, data1.wrapping_add(data2));
            }
            Instruction::Sub(_, _, _, _, arg1, arg2) => {
                let data1 = self.load(arg1);
                let data2 = self.load(arg2);
                self.push(arg1, data1.wrapping_sub(data2));
            }
            Instruction::Mul(_, _, _, _, arg1, arg2) => {
                let data1 = self.load(arg1);
                let data2 = self.load(arg2);
                self.push(arg1, data1.wrapping_mul(data2));
            }
            Instruction::Div(_, _, s1, s2, arg1, arg2) => {
                let data1 = self.load(arg1);
                let data2 = self.load(arg2);
                self.push(arg1, Self::div_bytes(data1, s1, data2, s2));
            }
            Instruction::SL(_, _, _, _, arg1) => {
                let data1 = self.load(arg1);
                self.push(arg1, data1 << 1)
            }
            Instruction::SR(_, _, _, _, arg1) => {
                let data1 = self.load(arg1);
                self.push(arg1, data1 >> 1)
            }
            Instruction::RL(_, _, _, _, arg1) => {
                let data1 = self.load(arg1);
                self.push(arg1, (data1 << 1) | (data1 >> 7));
            }
            Instruction::RR(_, _, _, _, arg1) => {
                let data1 = self.load(arg1);
                self.push(arg1, (data1 >> 1) | (data1 << 7));
            }
            Instruction::Copy(_, _, _, _, arg1, arg2) => {
                let data1 = self.load(arg1);
                self.push(arg2, data1);
            }
            Instruction::CompEq(_, _, _, _, arg1, arg2) => {
                let data1 = self.load(arg1);
                let data2 = self.load(arg2);
                if data1 != data2 {
                    self.reg_zero += 3;
                }
            }
            Instruction::CompGt(_, _, _, _, arg1, arg2) => {
                let data1 = self.load(arg1);
                let data2 = self.load(arg2);
                if data1 <= data2 {
                    self.reg_zero += 3;
                }
            }
            Instruction::CompLt(_, _, _, _, arg1, arg2) => {
                let data1 = self.load(arg1);
                let data2 = self.load(arg2);
                if data1 >= data2 {
                    self.reg_zero += 3;
                }
            }
        };
        self.reg_zero += 3;
        proof {
            assert(self@ =~= process_spec(old(self)@, inst));
        }
        Halted::Running
    }

    /// One instruction: fetch at the control register, then process.
    pub fn tick(&mut self) -> (r: Halted)
        requires
            old(self).reg_zero + 2 <= 126,
            process_ok(
                old(self)@,
                decode3_spec(
                    old(self)@.inst_mem[old(self).reg_zero as int],
                    old(self)@.inst_mem[old(self).reg_zero + 1],
                    old(self)@.inst_mem[old(self).reg_zero + 2],
                ),
            ),
        ensures
            final(self)@ == process_spec(
                old(self)@,
                decode3_spec(
                    old(self)@.inst_mem[old(self).reg_zero as int],
                    old(self)@.inst_mem[old(self).reg_zero + 1],
                    old(self)@.inst_mem[old(self).reg_zero + 2],
                ),
            ),
            final(self).devices == old(self).devices,
            r is Running,
    {
        let inst = self.fetch();
        self.process(inst)
    }
}

} // verus!
