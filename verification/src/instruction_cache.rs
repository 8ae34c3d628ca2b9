//! The packed instruction cache: the only component that knows the
//! packed-triple layout of a program image.
//!
//! A raw byte program is parsed once at construction: walking the buffer
//! in fixed strides of `1 + 2 * BYTE_SIZE` bytes, each stride yields one
//! cell `(opcode, operand1, operand2)`, the operands big-endian. Cells are
//! addressed word-granularly: a linear index `i` maps to cell `i / 3`,
//! field `i % 3` (field 0 is the opcode widened to a word). A write to
//! field 0 truncates the value to a byte; this is an accepted semantic,
//! not an error, so that a program may overwrite its own instructions.

use vstd::arithmetic::mul::lemma_mul_inequality;
use vstd::pervasive::VecAdditionalExecFns;
use vstd::prelude::*;

use crate::arch::{be_val, Arch};

verus! {

/// Bytes per packed cell: one opcode byte and two operands.
pub open spec fn stride_v<T: Arch>() -> int {
    1 + 2 * T::byte_size_v()
}

/// Number of cells the cache holds: enough to back every word-granular
/// index up to and including the instruction-segment length, so that the
/// bus is total over the instruction region.
pub open spec fn cell_cap_v<T: Arch>() -> int {
    T::instruction_size_v() / 3 + 1
}

/// Number of cells parsed out of the program image.
pub open spec fn parsed_cells_v<T: Arch>() -> int {
    T::instruction_size_v() / stride_v::<T>()
}

/// The value at word-granular index `i`: field `i % 3` of cell `i / 3`,
/// field 0 widened from the opcode byte.
pub open spec fn cell_field_val<T: Arch>(cells: Seq<(u8, T, T)>, i: int) -> int {
    if i % 3 == 0 {
        cells[i / 3].0 as int
    } else if i % 3 == 1 {
        cells[i / 3].1.as_int()
    } else {
        cells[i / 3].2.as_int()
    }
}

/// The word at word-granular index `i`: field `i % 3` of cell `i / 3`,
/// field 0 the opcode byte widened to a word.
pub open spec fn cell_field_word<T: Arch>(cells: Seq<(u8, T, T)>, i: int) -> T {
    if i % 3 == 0 {
        T::from_int_v(cells[i / 3].0 as int)
    } else if i % 3 == 1 {
        cells[i / 3].1
    } else {
        cells[i / 3].2
    }
}

/// The word at an index has the value `cell_field_val` gives.
pub proof fn lemma_cell_field_word_val<T: Arch>(cells: Seq<(u8, T, T)>, i: int)
    ensures
        cell_field_word(cells, i).as_int() == cell_field_val(cells, i),
{
    T::lemma_arch_facts();
    if i % 3 == 0 {
        T::lemma_from_int_v(cells[i / 3].0 as int);
    }
}

/// The cells after writing `v` at word-granular index `i`: field `i % 3`
/// of cell `i / 3` is replaced, field 0 narrowed to a byte.
pub open spec fn cell_field_set<T: Arch>(cells: Seq<(u8, T, T)>, i: int, v: T) -> Seq<(u8, T, T)> {
    let c = cells[i / 3];
    if i % 3 == 0 {
        cells.update(i / 3, ((v.as_int() % 256) as u8, c.1, c.2))
    } else if i % 3 == 1 {
        cells.update(i / 3, (c.0, v, c.2))
    } else {
        cells.update(i / 3, (c.0, c.1, v))
    }
}

/// Reading back through the cell/field arithmetic after a write: the
/// written index yields the written word — truncated to a byte at field
/// 0 — and every other index is untouched, even in the same cell.
pub proof fn lemma_cell_set_get<T: Arch>(cells: Seq<(u8, T, T)>, j: int, v: T, i: int)
    requires
        0 <= i,
        0 <= j,
        i / 3 < cells.len(),
        j / 3 < cells.len(),
    ensures
        i == j ==> cell_field_val(cell_field_set(cells, j, v), i) == if j % 3 == 0 {
            v.as_int() % 256
        } else {
            v.as_int()
        },
        i != j ==> cell_field_val(cell_field_set(cells, j, v), i) == cell_field_val(cells, i),
{
    if i == j {
        T::lemma_arch_facts();
        v.lemma_as_int_bounds();
    }
}

/// What construction from a program image yields: the first
/// `parsed_cells_v` cells hold the image's packed triples, decoded
/// big-endian; the rest of the fixed-length cell array is zeroed.
pub open spec fn built_from<T: Arch>(cells: Seq<(u8, T, T)>, raw: Seq<u8>) -> bool {
    let stride = stride_v::<T>();
    let bs = T::byte_size_v();
    &&& cells.len() == cell_cap_v::<T>()
    &&& forall|k: int|
        0 <= k < parsed_cells_v::<T>() ==> {
            &&& (#[trigger] cells[k]).0 == raw[k * stride]
            &&& cells[k].1.as_int() == be_val(raw.subrange(k * stride + 1, k * stride + 1 + bs))
            &&& cells[k].2.as_int() == be_val(
                raw.subrange(k * stride + 1 + bs, k * stride + 1 + 2 * bs),
            )
        }
    &&& forall|k: int|
        parsed_cells_v::<T>() <= k < cells.len() ==> {
            &&& (#[trigger] cells[k]).0 == 0
            &&& cells[k].1.as_int() == 0
            &&& cells[k].2.as_int() == 0
        }
}

/// A fixed-length array of packed cells, word-addressable through
/// `get` and `set`.
pub struct InstructionCache<T: Arch> {
    pub instructions: Vec<(u8, T, T)>,
}

impl<T: Arch> InstructionCache<T> {
    /// The cache backs every index the bus may present.
    pub open spec fn wf(self) -> bool {
        self.instructions@.len() == cell_cap_v::<T>()
    }

    /// Read field `index % 3` of cell `index / 3`, field 0 widened from
    /// byte to word.
    pub fn get(&self, index: T) -> (r: T)
        requires
            self.wf(),
            index.as_int() <= T::instruction_size_v(),
        ensures
            r == cell_field_word(self.instructions@, index.as_int()),
            r.as_int() == cell_field_val(self.instructions@, index.as_int()),
    {
        proof {
            T::lemma_arch_facts();
            index.lemma_as_int_bounds();
        }
        let i = index.as_usize();
        let cell = self.instructions[i / 3];
        let r = match i % 3 {
            0 => T::from_u8(cell.0),
            1 => cell.1,
            _ => cell.2,
        };
        proof {
            lemma_cell_field_word_val::<T>(self.instructions@, index.as_int());
            r.lemma_as_int_injective(cell_field_word(self.instructions@, index.as_int()));
        }
        r
    }

    /// Write field `index % 3` of cell `index / 3`, field 0 narrowed from
    /// word to byte, silently truncating.
    pub fn set(&mut self, index: T, value: T)
        requires
            old(self).wf(),
            index.as_int() <= T::instruction_size_v(),
        ensures
            final(self).wf(),
            final(self).instructions@ == cell_field_set(
                old(self).instructions@,
                index.as_int(),
                value,
            ),
    {
        proof {
            T::lemma_arch_facts();
            index.lemma_as_int_bounds();
        }
        let i = index.as_usize();
        let cell = self.instructions[i / 3];
        match i % 3 {
            0 => self.instructions.set(i / 3, (value.as_u8(), cell.1, cell.2)),
            1 => self.instructions.set(i / 3, (cell.0, value, cell.2)),
            _ => self.instructions.set(i / 3, (cell.0, cell.1, value)),
        }
    }

    /// Parse a program image: one cell per stride of `1 + 2 * BYTE_SIZE`
    /// bytes, opcode first, then the two operands big-endian; the cells
    /// past the parsed image are zeroed. The image must cover the whole
    /// instruction segment.
    pub fn new(raw: Vec<u8>) -> (r: InstructionCache<T>)
        requires
            raw@.len() >= T::instruction_size_v(),
        ensures
            built_from(r.instructions@, raw@),
    {
        proof {
            T::lemma_arch_facts();
        }
        let byte_size: usize = T::BYTE_SIZE().as_usize();
        let stride: usize = 1 + 2 * byte_size;
        let limit: usize = T::INSTRUCTION_SIZE().as_usize();
        let cap: usize = limit / 3 + 1;

        let mut assembled: Vec<(u8, T, T)> = Vec::new();
        let mut i: usize = 0;
        proof {
            assert(0int * stride_v::<T>() == 0) by (nonlinear_arith);
        }
        while i < limit
            invariant
                byte_size == T::byte_size_v(),
                stride == stride_v::<T>(),
                limit == T::instruction_size_v(),
                limit < 0x10_0000,
                limit % stride == 0,
                raw@.len() >= limit,
                i as int == assembled@.len() * stride_v::<T>(),
                i <= limit,
                forall|k: int|
                    0 <= k < assembled@.len() ==> {
                        &&& (#[trigger] assembled@[k]).0 == raw@[k * stride]
                        &&& assembled@[k].1.as_int() == be_val(
                            raw@.subrange(k * stride + 1, k * stride + 1 + T::byte_size_v()),
                        )
                        &&& assembled@[k].2.as_int() == be_val(
                            raw@.subrange(
                                k * stride + 1 + T::byte_size_v(),
                                k * stride + 1 + 2 * T::byte_size_v(),
                            ),
                        )
                    },
            decreases limit - i,
        {
            proof {
                T::lemma_arch_facts();
                let n = assembled@.len() as int;
                let parsed = parsed_cells_v::<T>();
                assert(T::instruction_size_v() == parsed * stride_v::<T>())
                    by (nonlinear_arith)
                    requires
                        T::instruction_size_v() % stride_v::<T>() == 0,
                        stride_v::<T>() >= 5,
                        parsed == T::instruction_size_v() / stride_v::<T>(),
                ;
                assert(n < parsed) by (nonlinear_arith)
                    requires
                        n * stride_v::<T>() < parsed * stride_v::<T>(),
                        stride_v::<T>() >= 5,
                        n >= 0,
                ;
                lemma_mul_inequality(n + 1, parsed, stride_v::<T>());
                assert((n + 1) * stride_v::<T>() == n * stride_v::<T>() + stride_v::<T>())
                    by (nonlinear_arith);
                assert(i + stride <= limit);
            }
            let inst = raw[i];
            let arg_one = T::from_be_bytes(
                vstd::slice::slice_subrange(raw.as_slice(), i + 1, i + 1 + byte_size),
            );
            let arg_two = T::from_be_bytes(
                vstd::slice::slice_subrange(
                    raw.as_slice(),
                    i + 1 + byte_size,
                    i + 1 + 2 * byte_size,
                ),
            );
            assembled.push((inst, arg_one, arg_two));
            i += stride;
        }
        proof {
            T::lemma_arch_facts();
            let parsed = parsed_cells_v::<T>();
            assert(T::instruction_size_v() == parsed * stride_v::<T>()) by (nonlinear_arith)
                requires
                    T::instruction_size_v() % stride_v::<T>() == 0,
                    stride_v::<T>() >= 5,
                    parsed == T::instruction_size_v() / stride_v::<T>(),
            ;
            assert(assembled@.len() == parsed) by (nonlinear_arith)
                requires
                    assembled@.len() * stride_v::<T>() == parsed * stride_v::<T>(),
                    stride_v::<T>() >= 5,
                    assembled@.len() >= 0,
            ;
        }
        let zero = T::from_u8(0);
        while assembled.len() < cap
            invariant
                cap == cell_cap_v::<T>(),
                parsed_cells_v::<T>() <= assembled@.len() <= cap,
                forall|k: int|
                    0 <= k < parsed_cells_v::<T>() ==> {
                        &&& (#[trigger] assembled@[k]).0 == raw@[k * stride_v::<T>()]
                        &&& assembled@[k].1.as_int() == be_val(
                            raw@.subrange(
                                k * stride_v::<T>() + 1,
                                k * stride_v::<T>() + 1 + T::byte_size_v(),
                            ),
                        )
                        &&& assembled@[k].2.as_int() == be_val(
                            raw@.subrange(
                                k * stride_v::<T>() + 1 + T::byte_size_v(),
                                k * stride_v::<T>() + 1 + 2 * T::byte_size_v(),
                            ),
                        )
                    },
                zero.as_int() == 0,
                forall|k: int|
                    parsed_cells_v::<T>() <= k < assembled@.len() ==> {
                        &&& (#[trigger] assembled@[k]).0 == 0
                        &&& assembled@[k].1.as_int() == 0
                        &&& assembled@[k].2.as_int() == 0
                    },
            decreases cap - assembled@.len(),
        {
            let ghost entry_seq = assembled@;
            assembled.push((0u8, zero, zero));
            proof {
                T::lemma_arch_facts();
                let s = assembled@;
                assert(s == entry_seq.push((0u8, zero, zero)));
                assert(s[s.len() - 1] == (0u8, zero, zero));
                assert forall|k: int| parsed_cells_v::<T>() <= k < s.len() implies {
                    &&& (#[trigger] s[k]).0 == 0
                    &&& s[k].1.as_int() == 0
                    &&& s[k].2.as_int() == 0
                } by {
                    if k < s.len() - 1 {
                        assert(s[k] == entry_seq[k]);
                        assert(entry_seq[k].0 == 0);
                    } else {
                        assert(s[k] == (0u8, zero, zero));
                    }
                }
            }
        }
        InstructionCache { instructions: assembled }
    }
}

impl InstructionCache<u16> {
    /// Parse a 16-bit program image: stride 5, two-byte operands.
    pub fn new_16(raw: Vec<u8>) -> (r: InstructionCache<u16>)
        requires
            raw@.len() >= u16::instruction_size_v(),
        ensures
            built_from(r.instructions@, raw@),
    {
        Self::new(raw)
    }
}

impl InstructionCache<u32> {
    /// Parse a 32-bit program image: stride 9, four-byte operands.
    pub fn new_32(raw: Vec<u8>) -> (r: InstructionCache<u32>)
        requires
            raw@.len() >= u32::instruction_size_v(),
        ensures
            built_from(r.instructions@, raw@),
    {
        Self::new(raw)
    }
}

impl InstructionCache<u64> {
    /// Parse a 64-bit program image: stride 17, eight-byte operands.
    pub fn new_64(raw: Vec<u8>) -> (r: InstructionCache<u64>)
        requires
            raw@.len() >= u64::instruction_size_v(),
        ensures
            built_from(r.instructions@, raw@),
    {
        Self::new(raw)
    }
}

} // verus!
