//! The word domain: a machine word of 16, 32 or 64 bits, together with the
//! per-architecture constants (data-segment size, instruction-segment size,
//! byte width) and the arithmetic, ordering and conversion operations the
//! rest of the machine needs.
//!
//! Arithmetic wraps around at the word's modulus; division by zero yields
//! zero. This is the one overflow policy of the machine and it is applied
//! uniformly by the execution engine.

use vstd::prelude::*;

verus! {

/// The value of a big-endian byte string: the last byte is the least
/// significant one.
pub open spec fn be_val(s: Seq<u8>) -> int
    decreases s.len(),
{
    if s.len() == 0 {
        0
    } else {
        be_val(s.drop_last()) * 256 + s.last()
    }
}

/// Reading one more byte multiplies the value so far by 256 and adds it.
pub proof fn lemma_be_val_step(s: Seq<u8>, k: int)
    requires
        0 <= k < s.len(),
    ensures
        be_val(s.take(k + 1)) == be_val(s.take(k)) * 256 + s[k],
{
    assert(s.take(k + 1).drop_last() =~= s.take(k));
    assert(s.take(k + 1).last() == s[k]);
}

/// A value already inside the word's range is its own remainder.
pub proof fn lemma_mod_small<T: Arch>(x: int)
    requires
        0 <= x < T::modulus(),
    ensures
        x % T::modulus() == x,
{
    T::lemma_arch_facts();
    vstd::arithmetic::div_mod::lemma_small_mod(x as nat, T::modulus() as nat);
}

/// The remainder by the word's modulus lies in the word's range.
pub proof fn lemma_mod_in_range<T: Arch>(x: int)
    requires
        0 <= x,
    ensures
        0 <= x % T::modulus() < T::modulus(),
{
    T::lemma_arch_facts();
    vstd::arithmetic::div_mod::lemma_mod_bound(x, T::modulus());
}

/// Reducing before adding more makes no difference modulo the modulus.
pub proof fn lemma_mod_add_again<T: Arch>(x: int, k: int)
    requires
        0 <= x,
        0 <= k < T::modulus(),
    ensures
        ((x % T::modulus()) + k) % T::modulus() == (x + k) % T::modulus(),
{
    T::lemma_arch_facts();
    vstd::arithmetic::div_mod::lemma_add_mod_noop(x, k, T::modulus());
    lemma_mod_small::<T>(k);
}

/// A word whose value is `x` is the word `from_int_v(x)`.
pub proof fn lemma_word_eq<T: Arch>(a: T, x: int)
    requires
        a.as_int() == x,
        0 <= x < T::modulus(),
    ensures
        a == T::from_int_v(x),
{
    T::lemma_from_int_v(x);
    a.lemma_as_int_injective(T::from_int_v(x));
}

/// A machine word: an unsigned integer of fixed bit width, totally ordered,
/// with wrapping arithmetic and big-endian construction from bytes.
///
/// `as_int` is the word's mathematical value, always in `[0, modulus())`.
/// Each width fixes three constants: the data-segment length in words,
/// the instruction-segment length in address units, and the width in bytes.
#[allow(non_snake_case)]
pub trait Arch: Sized + Copy {
    /// The mathematical value of this word.
    spec fn as_int(self) -> int;

    /// One more than the largest representable value: 2 to the bit width.
    spec fn modulus() -> int;

    /// Length of the data segment, in words.
    spec fn data_size_v() -> int;

    /// Length of the instruction segment, in address units.
    spec fn instruction_size_v() -> int;

    /// Width of the word, in bytes.
    spec fn byte_size_v() -> int;

    /// The per-architecture constants are consistent with each other:
    /// the three static bus regions fit in the address space, the
    /// instruction segment is a whole number of packed cells, and the
    /// diagnostic address lies inside the data segment.
    proof fn lemma_arch_facts()
        ensures
            Self::modulus() >= 0x10000,
            2 <= Self::byte_size_v() <= 8,
            420 <= Self::data_size_v() < 0x10_0000,
            Self::instruction_size_v() >= 3,
            Self::data_size_v() + 1 + Self::instruction_size_v() < Self::modulus(),
            Self::instruction_size_v() < 0x10_0000,
            Self::instruction_size_v() % (1 + 2 * Self::byte_size_v()) == 0,
            Self::instruction_size_v() / (1 + 2 * Self::byte_size_v()) <= Self::instruction_size_v() / 3 + 1,
    ;

    /// The word with value `v`; meaningful for `v` in `[0, modulus())`.
    spec fn from_int_v(v: int) -> Self;

    /// `from_int_v` inverts `as_int` on the word's range.
    proof fn lemma_from_int_v(v: int)
        requires
            0 <= v < Self::modulus(),
        ensures
            Self::from_int_v(v).as_int() == v,
    ;

    /// Every word's value lies below the modulus.
    proof fn lemma_as_int_bounds(self)
        ensures
            0 <= self.as_int() < Self::modulus(),
    ;

    /// Words with equal values are equal.
    proof fn lemma_as_int_injective(self, other: Self)
        ensures
            self.as_int() == other.as_int() ==> self == other,
    ;

    /// Length of the data segment, as a word.
    fn DATA_SIZE() -> (r: Self)
        ensures
            r.as_int() == Self::data_size_v(),
    ;

    /// Length of the instruction segment, as a word.
    fn INSTRUCTION_SIZE() -> (r: Self)
        ensures
            r.as_int() == Self::instruction_size_v(),
    ;

    /// Width of the word in bytes, as a word.
    fn BYTE_SIZE() -> (r: Self)
        ensures
            r.as_int() == Self::byte_size_v(),
    ;

    /// Big-endian decode of a byte slice of exactly the word's width.
    fn from_be_bytes(b: &[u8]) -> (r: Self)
        requires
            b@.len() == Self::byte_size_v(),
        ensures
            r.as_int() == be_val(b@),
    ;

    /// Narrow to a machine index. The engine only indexes within the
    /// segments, whose sizes fit comfortably in 32 bits.
    fn as_usize(&self) -> (r: usize)
        requires
            self.as_int() < 0x1_0000_0000,
        ensures
            r == self.as_int(),
    ;

    /// Narrow to a single byte, keeping the low eight bits.
    fn as_u8(&self) -> (r: u8)
        ensures
            r == self.as_int() % 256,
    ;

    /// Widen from a machine-independent non-negative 32-bit integer,
    /// wrapping into the word's range.
    fn from_i32(i: i32) -> (r: Self)
        requires
            i >= 0,
        ensures
            r.as_int() == i as int % Self::modulus(),
    ;

    /// Widen a single byte; byte values always fit.
    fn from_u8(b: u8) -> (r: Self)
        ensures
            r.as_int() == b,
    ;

    /// Wrapping addition.
    fn wadd(self, other: Self) -> (r: Self)
        ensures
            r.as_int() == (self.as_int() + other.as_int()) % Self::modulus(),
    ;

    /// Wrapping subtraction.
    fn wsub(self, other: Self) -> (r: Self)
        ensures
            r.as_int() == if self.as_int() >= other.as_int() {
                self.as_int() - other.as_int()
            } else {
                self.as_int() - other.as_int() + Self::modulus()
            },
    ;

    /// Wrapping multiplication.
    fn wmul(self, other: Self) -> (r: Self)
        ensures
            r.as_int() == (self.as_int() * other.as_int()) % Self::modulus(),
    ;

    /// Division; a zero divisor yields zero.
    fn wdiv(self, other: Self) -> (r: Self)
        ensures
            r.as_int() == if other.as_int() == 0 {
                0
            } else {
                self.as_int() / other.as_int()
            },
    ;

    /// Value equality.
    fn cmp_eq(self, other: Self) -> (r: bool)
        ensures
            r == (self.as_int() == other.as_int()),
    ;

    /// Strict order on values.
    fn cmp_lt(self, other: Self) -> (r: bool)
        ensures
            r == (self.as_int() < other.as_int()),
    ;

    /// Non-strict order on values.
    fn cmp_le(self, other: Self) -> (r: bool)
        ensures
            r == (self.as_int() <= other.as_int()),
    ;
}

#[allow(non_snake_case)]
impl Arch for u16 {
    open spec fn as_int(self) -> int {
        self as int
    }

    open spec fn from_int_v(v: int) -> Self {
        v as u16
    }

    proof fn lemma_from_int_v(v: int) {
    }

    open spec fn modulus() -> int {
        0x10000
    }

    open spec fn data_size_v() -> int {
        16383
    }

    open spec fn instruction_size_v() -> int {
        27305
    }

    open spec fn byte_size_v() -> int {
        2
    }

    proof fn lemma_arch_facts() {
        assert(27305int % 5 == 0);
        assert(27305int / 5 == 5461);
        assert(27305int / 3 == 9101);
    }

    proof fn lemma_as_int_bounds(self) {
    }

    proof fn lemma_as_int_injective(self, other: Self) {
    }

    fn DATA_SIZE() -> (r: Self) {
        16383
    }

    fn INSTRUCTION_SIZE() -> (r: Self) {
        27305
    }

    fn BYTE_SIZE() -> (r: Self) {
        2
    }

    fn from_be_bytes(b: &[u8]) -> (r: Self) {
        let b0 = *vstd::slice::slice_index_get(b, 0);
        let b1 = *vstd::slice::slice_index_get(b, 1);
        let r: u16 = (b0 as u16) * 256 + (b1 as u16);
        proof {
            assert(b@.take(0) =~= Seq::<u8>::empty());
            lemma_be_val_step(b@, 0);
            lemma_be_val_step(b@, 1);
            assert(b@.take(2) =~= b@);
        }
        r
    }

    fn as_usize(&self) -> (r: usize) {
        *self as usize
    }

    fn as_u8(&self) -> (r: u8) {
        (*self % 256) as u8
    }

    fn from_i32(i: i32) -> (r: Self) {
        (i % 0x10000) as u16
    }

    fn from_u8(b: u8) -> (r: Self) {
        b as u16
    }

    fn wadd(self, other: Self) -> (r: Self) {
        self.wrapping_add(other)
    }

    fn wsub(self, other: Self) -> (r: Self) {
        self.wrapping_sub(other)
    }

    fn wmul(self, other: Self) -> (r: Self) {
        self.wrapping_mul(other)
    }

    fn wdiv(self, other: Self) -> (r: Self) {
        if other == 0 {
            0
        } else {
            self / other
        }
    }

    fn cmp_eq(self, other: Self) -> (r: bool) {
        self == other
    }

    fn cmp_lt(self, other: Self) -> (r: bool) {
        self < other
    }

    fn cmp_le(self, other: Self) -> (r: bool) {
        self <= other
    }
}

#[allow(non_snake_case)]
impl Arch for u32 {
    open spec fn as_int(self) -> int {
        self as int
    }

    open spec fn from_int_v(v: int) -> Self {
        v as u32
    }

    proof fn lemma_from_int_v(v: int) {
    }

    open spec fn modulus() -> int {
        0x1_0000_0000
    }

    open spec fn data_size_v() -> int {
        65535
    }

    open spec fn instruction_size_v() -> int {
        196605
    }

    open spec fn byte_size_v() -> int {
        4
    }

    proof fn lemma_arch_facts() {
        assert(196605int % 9 == 0);
        assert(196605int / 9 == 21845);
        assert(196605int / 3 == 65535);
    }

    proof fn lemma_as_int_bounds(self) {
    }

    proof fn lemma_as_int_injective(self, other: Self) {
    }

    fn DATA_SIZE() -> (r: Self) {
        65535
    }

    fn INSTRUCTION_SIZE() -> (r: Self) {
        196605
    }

    fn BYTE_SIZE() -> (r: Self) {
        4
    }

    fn from_be_bytes(b: &[u8]) -> (r: Self) {
        let b0 = *vstd::slice::slice_index_get(b, 0);
        let b1 = *vstd::slice::slice_index_get(b, 1);
        let b2 = *vstd::slice::slice_index_get(b, 2);
        let b3 = *vstd::slice::slice_index_get(b, 3);
        let v1: u32 = (b0 as u32) * 256 + (b1 as u32);
        let v2: u32 = v1 * 256 + (b2 as u32);
        let v3: u32 = v2 * 256 + (b3 as u32);
        proof {
            assert(b@.take(0) =~= Seq::<u8>::empty());
            lemma_be_val_step(b@, 0);
            lemma_be_val_step(b@, 1);
            lemma_be_val_step(b@, 2);
            lemma_be_val_step(b@, 3);
            assert(b@.take(4) =~= b@);
        }
        v3
    }

    fn as_usize(&self) -> (r: usize) {
        *self as usize
    }

    fn as_u8(&self) -> (r: u8) {
        (*self % 256) as u8
    }

    fn from_i32(i: i32) -> (r: Self) {
        i as u32
    }

    fn from_u8(b: u8) -> (r: Self) {
        b as u32
    }

    fn wadd(self, other: Self) -> (r: Self) {
        self.wrapping_add(other)
    }

    fn wsub(self, other: Self) -> (r: Self) {
        self.wrapping_sub(other)
    }

    fn wmul(self, other: Self) -> (r: Self) {
        self.wrapping_mul(other)
    }

    fn wdiv(self, other: Self) -> (r: Self) {
        if other == 0 {
            0
        } else {
            self / other
        }
    }

    fn cmp_eq(self, other: Self) -> (r: bool) {
        self == other
    }

    fn cmp_lt(self, other: Self) -> (r: bool) {
        self < other
    }

    fn cmp_le(self, other: Self) -> (r: bool) {
        self <= other
    }
}

#[allow(non_snake_case)]
impl Arch for u64 {
    open spec fn as_int(self) -> int {
        self as int
    }

    open spec fn from_int_v(v: int) -> Self {
        v as u64
    }

    proof fn lemma_from_int_v(v: int) {
    }

    open spec fn modulus() -> int {
        0x1_0000_0000_0000_0000
    }

    open spec fn data_size_v() -> int {
        65535
    }

    open spec fn instruction_size_v() -> int {
        371365
    }

    open spec fn byte_size_v() -> int {
        8
    }

    proof fn lemma_arch_facts() {
        assert(371365int % 17 == 0);
        assert(371365int / 17 == 21845);
        assert(371365int / 3 == 123788);
    }

    proof fn lemma_as_int_bounds(self) {
    }

    proof fn lemma_as_int_injective(self, other: Self) {
    }

    fn DATA_SIZE() -> (r: Self) {
        65535
    }

    fn INSTRUCTION_SIZE() -> (r: Self) {
        371365
    }

    fn BYTE_SIZE() -> (r: Self) {
        8
    }

    fn from_be_bytes(b: &[u8]) -> (r: Self) {
        let b0 = *vstd::slice::slice_index_get(b, 0);
        let b1 = *vstd::slice::slice_index_get(b, 1);
        let b2 = *vstd::slice::slice_index_get(b, 2);
        let b3 = *vstd::slice::slice_index_get(b, 3);
        let b4 = *vstd::slice::slice_index_get(b, 4);
        let b5 = *vstd::slice::slice_index_get(b, 5);
        let b6 = *vstd::slice::slice_index_get(b, 6);
        let b7 = *vstd::slice::slice_index_get(b, 7);
        let v1: u64 = (b0 as u64) * 256 + (b1 as u64);
        let v2: u64 = v1 * 256 + (b2 as u64);
        let v3: u64 = v2 * 256 + (b3 as u64);
        let v4: u64 = v3 * 256 + (b4 as u64);
        let v5: u64 = v4 * 256 + (b5 as u64);
        let v6: u64 = v5 * 256 + (b6 as u64);
        let v7: u64 = v6 * 256 + (b7 as u64);
        proof {
            assert(b@.take(0) =~= Seq::<u8>::empty());
            lemma_be_val_step(b@, 0);
            lemma_be_val_step(b@, 1);
            lemma_be_val_step(b@, 2);
            lemma_be_val_step(b@, 3);
            lemma_be_val_step(b@, 4);
            lemma_be_val_step(b@, 5);
            lemma_be_val_step(b@, 6);
            lemma_be_val_step(b@, 7);
            assert(b@.take(8) =~= b@);
        }
        v7
    }

    fn as_usize(&self) -> (r: usize) {
        *self as usize
    }

    fn as_u8(&self) -> (r: u8) {
        (*self % 256) as u8
    }

    fn from_i32(i: i32) -> (r: Self) {
        i as u64
    }

    fn from_u8(b: u8) -> (r: Self) {
        b as u64
    }

    fn wadd(self, other: Self) -> (r: Self) {
        self.wrapping_add(other)
    }

    fn wsub(self, other: Self) -> (r: Self) {
        self.wrapping_sub(other)
    }

    fn wmul(self, other: Self) -> (r: Self) {
        self.wrapping_mul(other)
    }

    fn wdiv(self, other: Self) -> (r: Self) {
        if other == 0 {
            0
        } else {
            self / other
        }
    }

    fn cmp_eq(self, other: Self) -> (r: bool) {
        self == other
    }

    fn cmp_lt(self, other: Self) -> (r: bool) {
        self < other
    }

    fn cmp_le(self, other: Self) -> (r: bool) {
        self <= other
    }
}

} // verus!
