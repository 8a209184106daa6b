//! Fixed-width unsigned integers usable as register storage.
//!
//! The `UIntLike` trait groups the integer types a register may hold
//! (8, 16, 32 and 64 bits wide).  Every value of such a type is viewed as a
//! 64-bit pattern through `uval`, and each bitwise operation carries an exact
//! contract over that view.  The helper `zero()` returns 0 and `all()` the
//! all-ones value of the width, computed by wraparound subtraction rather than
//! a per-width literal.

use vstd::prelude::*;

verus! {

/// The pattern whose lowest `size` bits are set and all higher bits clear.
/// `ones(w)` is the all-ones value of a `w`-bit register.
pub open spec fn ones(size: u64) -> u64
    recommends
        size <= 64,
{
    0xffff_ffff_ffff_ffffu64 >> ((64 - size) as u64)
}

/// True when bit `i` of the 64-bit pattern `x` is set.
pub open spec fn bit(x: u64, i: u64) -> bool
    recommends
        i < 64,
{
    (x >> i) & 1 == 1
}

/// A fixed-width unsigned integer that can be the raw storage of a register.
///
/// `spec_width()` is the bit width, one of 8, 16, 32 or 64; `uval` embeds the
/// value into a 64-bit pattern whose bits above the width are all clear.  The
/// executable operations are the closed operator set a register needs: AND,
/// OR, XOR, NOT, both shifts, equality, and the two constants.
pub trait UIntLike: Copy + Sized {
    /// Bit width of the type.
    spec fn spec_width() -> u64;

    /// The value, as a 64-bit pattern.
    spec fn uval(self) -> u64;

    /// The value of this width holding the low bits of the 64-bit pattern
    /// `v`: the spec-level inverse of `uval`.
    spec fn of_uval(v: u64) -> Self;

    /// The width is one of the four supported register widths.
    proof fn width_properties()
        ensures
            Self::spec_width() == 8 || Self::spec_width() == 16 || Self::spec_width() == 32
                || Self::spec_width() == 64,
    ;

    /// Every value fits inside the width: bits above it are clear.
    proof fn uval_in_range(self)
        ensures
            self.uval() & ones(Self::spec_width()) == self.uval(),
    ;

    /// `of_uval` inverts `uval`: the pattern determines the value.
    proof fn lemma_of_uval(self)
        ensures
            Self::of_uval(self.uval()) == self,
    ;

    /// The bit width, as a run-time value.
    fn width() -> (w: u8)
        ensures
            w as u64 == Self::spec_width(),
    ;

    /// The value 0.
    fn zero() -> (r: Self)
        ensures
            r.uval() == 0,
    ;

    /// The value with all bits of the width set, computed as `zero() - 1`
    /// under wraparound semantics.
    fn all() -> (r: Self)
        ensures
            r.uval() == ones(Self::spec_width()),
    ;

    /// Bitwise AND.
    fn and(self, rhs: Self) -> (r: Self)
        ensures
            r.uval() == self.uval() & rhs.uval(),
    ;

    /// Bitwise OR.
    fn or(self, rhs: Self) -> (r: Self)
        ensures
            r.uval() == self.uval() | rhs.uval(),
    ;

    /// Bitwise XOR.
    fn xor(self, rhs: Self) -> (r: Self)
        ensures
            r.uval() == self.uval() ^ rhs.uval(),
    ;

    /// Bitwise complement within the width.
    fn not(self) -> (r: Self)
        ensures
            r.uval() == !self.uval() & ones(Self::spec_width()),
    ;

    /// Left shift by `n` bit positions; bits shifted beyond the width are
    /// discarded.
    fn shl(self, n: u8) -> (r: Self)
        requires
            (n as u64) < Self::spec_width(),
        ensures
            r.uval() == (self.uval() << (n as u64)) & ones(Self::spec_width()),
    ;

    /// Right shift by `n` bit positions.
    fn shr(self, n: u8) -> (r: Self)
        requires
            (n as u64) < Self::spec_width(),
        ensures
            r.uval() == self.uval() >> (n as u64),
    ;

    /// Equality of the underlying patterns.
    fn equals(self, rhs: Self) -> (r: bool)
        ensures
            r == (self.uval() == rhs.uval()),
    ;
}

proof fn u8_facts(a: u8, b: u8, n: u8)
    by (bit_vector)
    ensures
        (a & b) as u64 == (a as u64) & (b as u64),
        (a | b) as u64 == (a as u64) | (b as u64),
        (a ^ b) as u64 == (a as u64) ^ (b as u64),
        (!a) as u64 == !(a as u64) & (0xffff_ffff_ffff_ffffu64 >> 56),
        n < 8 ==> ((a << n) as u64) == ((a as u64) << (n as u64)) & (0xffff_ffff_ffff_ffffu64
            >> 56),
        n < 8 ==> ((a >> n) as u64) == (a as u64) >> (n as u64),
        (a as u64) & (0xffff_ffff_ffff_ffffu64 >> 56) == (a as u64),
        ((a as u64) as u8) == a,
        0xffff_ffff_ffff_ffffu64 >> 56 == 0xff,
{
}

impl UIntLike for u8 {
    open spec fn spec_width() -> u64 {
        8
    }

    open spec fn uval(self) -> u64 {
        self as u64
    }

    open spec fn of_uval(v: u64) -> Self {
        v as u8
    }

    proof fn width_properties() {
    }

    proof fn uval_in_range(self) {
        u8_facts(self, 0, 0);
    }

    proof fn lemma_of_uval(self) {
        u8_facts(self, 0, 0);
    }

    fn width() -> (w: u8) {
        8
    }

    fn zero() -> (r: Self) {
        0
    }

    fn all() -> (r: Self) {
        proof {
            u8_facts(0, 0, 0);
        }
        0u8.wrapping_sub(1)
    }

    fn and(self, rhs: Self) -> (r: Self) {
        proof {
            u8_facts(self, rhs, 0);
        }
        self & rhs
    }

    fn or(self, rhs: Self) -> (r: Self) {
        proof {
            u8_facts(self, rhs, 0);
        }
        self | rhs
    }

    fn xor(self, rhs: Self) -> (r: Self) {
        proof {
            u8_facts(self, rhs, 0);
        }
        self ^ rhs
    }

    fn not(self) -> (r: Self) {
        proof {
            u8_facts(self, 0, 0);
        }
        !self
    }

    fn shl(self, n: u8) -> (r: Self) {
        proof {
            u8_facts(self, 0, n);
        }
        self << n
    }

    fn shr(self, n: u8) -> (r: Self) {
        proof {
            u8_facts(self, 0, n);
        }
        self >> n
    }

    fn equals(self, rhs: Self) -> (r: bool) {
        self == rhs
    }
}

proof fn u16_facts(a: u16, b: u16, n: u8)
    by (bit_vector)
    ensures
        (a & b) as u64 == (a as u64) & (b as u64),
        (a | b) as u64 == (a as u64) | (b as u64),
        (a ^ b) as u64 == (a as u64) ^ (b as u64),
        (!a) as u64 == !(a as u64) & (0xffff_ffff_ffff_ffffu64 >> 48),
        n < 16 ==> ((a << (n as u16)) as u64) == ((a as u64) << (n as u64)) & (
        0xffff_ffff_ffff_ffffu64 >> 48),
        n < 16 ==> ((a >> (n as u16)) as u64) == (a as u64) >> (n as u64),
        (a as u64) & (0xffff_ffff_ffff_ffffu64 >> 48) == (a as u64),
        ((a as u64) as u16) == a,
        0xffff_ffff_ffff_ffffu64 >> 48 == 0xffff,
{
}

impl UIntLike for u16 {
    open spec fn spec_width() -> u64 {
        16
    }

    open spec fn uval(self) -> u64 {
        self as u64
    }

    open spec fn of_uval(v: u64) -> Self {
        v as u16
    }

    proof fn width_properties() {
    }

    proof fn uval_in_range(self) {
        u16_facts(self, 0, 0);
    }

    proof fn lemma_of_uval(self) {
        u16_facts(self, 0, 0);
    }

    fn width() -> (w: u8) {
        16
    }

    fn zero() -> (r: Self) {
        0
    }

    fn all() -> (r: Self) {
        proof {
            u16_facts(0, 0, 0);
        }
        0u16.wrapping_sub(1)
    }

    fn and(self, rhs: Self) -> (r: Self) {
        proof {
            u16_facts(self, rhs, 0);
        }
        self & rhs
    }

    fn or(self, rhs: Self) -> (r: Self) {
        proof {
            u16_facts(self, rhs, 0);
        }
        self | rhs
    }

    fn xor(self, rhs: Self) -> (r: Self) {
        proof {
            u16_facts(self, rhs, 0);
        }
        self ^ rhs
    }

    fn not(self) -> (r: Self) {
        proof {
            u16_facts(self, 0, 0);
        }
        !self
    }

    fn shl(self, n: u8) -> (r: Self) {
        proof {
            u16_facts(self, 0, n);
        }
        self << (n as u16)
    }

    fn shr(self, n: u8) -> (r: Self) {
        proof {
            u16_facts(self, 0, n);
        }
        self >> (n as u16)
    }

    fn equals(self, rhs: Self) -> (r: bool) {
        self == rhs
    }
}

proof fn u32_facts(a: u32, b: u32, n: u8)
    by (bit_vector)
    ensures
        (a & b) as u64 == (a as u64) & (b as u64),
        (a | b) as u64 == (a as u64) | (b as u64),
        (a ^ b) as u64 == (a as u64) ^ (b as u64),
        (!a) as u64 == !(a as u64) & (0xffff_ffff_ffff_ffffu64 >> 32),
        n < 32 ==> ((a << (n as u32)) as u64) == ((a as u64) << (n as u64)) & (
        0xffff_ffff_ffff_ffffu64 >> 32),
        n < 32 ==> ((a >> (n as u32)) as u64) == (a as u64) >> (n as u64),
        (a as u64) & (0xffff_ffff_ffff_ffffu64 >> 32) == (a as u64),
        ((a as u64) as u32) == a,
        0xffff_ffff_ffff_ffffu64 >> 32 == 0xffff_ffff,
{
}

impl UIntLike for u32 {
    open spec fn spec_width() -> u64 {
        32
    }

    open spec fn uval(self) -> u64 {
        self as u64
    }

    open spec fn of_uval(v: u64) -> Self {
        v as u32
    }

    proof fn width_properties() {
    }

    proof fn uval_in_range(self) {
        u32_facts(self, 0, 0);
    }

    proof fn lemma_of_uval(self) {
        u32_facts(self, 0, 0);
    }

    fn width() -> (w: u8) {
        32
    }

    fn zero() -> (r: Self) {
        0
    }

    fn all() -> (r: Self) {
        proof {
            u32_facts(0, 0, 0);
        }
        0u32.wrapping_sub(1)
    }

    fn and(self, rhs: Self) -> (r: Self) {
        proof {
            u32_facts(self, rhs, 0);
        }
        self & rhs
    }

    fn or(self, rhs: Self) -> (r: Self) {
        proof {
            u32_facts(self, rhs, 0);
        }
        self | rhs
    }

    fn xor(self, rhs: Self) -> (r: Self) {
        proof {
            u32_facts(self, rhs, 0);
        }
        self ^ rhs
    }

    fn not(self) -> (r: Self) {
        proof {
            u32_facts(self, 0, 0);
        }
        !self
    }

    fn shl(self, n: u8) -> (r: Self) {
        proof {
            u32_facts(self, 0, n);
        }
        self << (n as u32)
    }

    fn shr(self, n: u8) -> (r: Self) {
        proof {
            u32_facts(self, 0, n);
        }
        self >> (n as u32)
    }

    fn equals(self, rhs: Self) -> (r: bool) {
        self == rhs
    }
}

proof fn u64_facts(a: u64, n: u8)
    by (bit_vector)
    ensures
        (!a) & (0xffff_ffff_ffff_ffffu64 >> 0) == !a,
        n < 64 ==> (a << (n as u64)) == (a << (n as u64)) & (0xffff_ffff_ffff_ffffu64 >> 0),
        a & (0xffff_ffff_ffff_ffffu64 >> 0) == a,
        0xffff_ffff_ffff_ffffu64 >> 0 == 0xffff_ffff_ffff_ffff,
{
}

impl UIntLike for u64 {
    open spec fn spec_width() -> u64 {
        64
    }

    open spec fn uval(self) -> u64 {
        self
    }

    open spec fn of_uval(v: u64) -> Self {
        v
    }

    proof fn width_properties() {
    }

    proof fn uval_in_range(self) {
        u64_facts(self, 0);
    }

    proof fn lemma_of_uval(self) {
    }

    fn width() -> (w: u8) {
        64
    }

    fn zero() -> (r: Self) {
        0
    }

    fn all() -> (r: Self) {
        proof {
            u64_facts(0, 0);
        }
        0u64.wrapping_sub(1)
    }

    fn and(self, rhs: Self) -> (r: Self) {
        self & rhs
    }

    fn or(self, rhs: Self) -> (r: Self) {
        self | rhs
    }

    fn xor(self, rhs: Self) -> (r: Self) {
        self ^ rhs
    }

    fn not(self) -> (r: Self) {
        proof {
            u64_facts(self, 0);
        }
        !self
    }

    fn shl(self, n: u8) -> (r: Self) {
        proof {
            u64_facts(self, n);
        }
        self << (n as u64)
    }

    fn shr(self, n: u8) -> (r: Self) {
        self >> (n as u64)
    }

    fn equals(self, rhs: Self) -> (r: bool) {
        self == rhs
    }
}

} // verus!
