//! Bit-field descriptors and the access capabilities of a register.
//!
//! A `Bits` value describes one contiguous bit range inside a register; a
//! `MaskedVal` pairs a pre-shifted, pre-masked data pattern with its mask.
//! Both carry a compile-time register tag so they can only meet a register of
//! the same family.  The capability traits `ReadableIO`, `WritableIO` and
//! `ReadWritableIO` specify every derived operation exactly over the 64-bit
//! view of the storage.

use core::marker::PhantomData;

use vstd::prelude::*;

use crate::register::RegName;
use crate::uint::UIntLike;
use crate::uint::bit;
use crate::uint::ones;

verus! {

/// Together with `RegName`, this trait ties a field family to the integer
/// width of the register it controls.  The unit marker works at every width.
pub trait BitsLike<T: UIntLike> {}

impl BitsLike<u8> for () {}

impl BitsLike<u16> for () {}

impl BitsLike<u32> for () {}

impl BitsLike<u64> for () {}

/// The result of putting a value into target bits: a data pattern already
/// shifted into position, together with the mask of the bits it covers.
///
/// Distinct `MaskedVal`s and `Bits` can be combined into one `MaskedVal`
/// describing the final state of all the covered bits.
pub struct MaskedVal<T: UIntLike, R: RegName> {
    val: T,
    mask: T,
    _reg: PhantomData<R>,
}

/// A bit-field descriptor: the offset and mask of one field (or, after
/// combination, of a union of fields) within a register tagged `R`.
///
/// The `R: RegName` parameter prevents a field declared for register `A` from
/// being used on another register `B`; enforcement is entirely at compile
/// time.
pub struct Bits<T: UIntLike, R: RegName> {
    offset: u8,
    mask: T,
    _reg: PhantomData<R>,
}

impl<T: UIntLike, R: RegName> MaskedVal<T, R> {
    /// The data pattern, as a 64-bit value.
    pub closed spec fn val_spec(&self) -> u64 {
        self.val.uval()
    }

    /// The mask of the covered bits, as a 64-bit value.
    pub closed spec fn mask_spec(&self) -> u64 {
        self.mask.uval()
    }

    #[verifier::type_invariant]
    spec fn well_formed(self) -> bool {
        self.val.uval() & self.mask.uval() == self.val.uval()
    }
}

impl<T: UIntLike, R: RegName> Bits<T, R> {
    /// The field's bit offset, as a 64-bit value.
    pub closed spec fn offset_spec(&self) -> u64 {
        self.offset as u64
    }

    /// The field's mask, as a 64-bit value.
    pub closed spec fn mask_spec(&self) -> u64 {
        self.mask.uval()
    }

    #[verifier::type_invariant]
    spec fn well_formed(self) -> bool {
        (self.offset as u64) < T::spec_width()
    }

    /// Builds a descriptor from an offset and a ready-made mask.
    pub fn new(offset: u8, mask: T) -> (r: Self)
        requires
            (offset as u64) < T::spec_width(),
        ensures
            r.offset_spec() == offset as u64,
            r.mask_spec() == mask.uval(),
    {
        Bits { offset, mask, _reg: PhantomData }
    }

    /// Builds the descriptor of the contiguous field occupying bit positions
    /// `[offset, offset + size)`.  A declaration with `size == 0` or one that
    /// exceeds the register's width is rejected before the program can run; a
    /// full-width field (`size` equal to the width) is valid and yields the
    /// all-ones mask.
    pub fn field(offset: u8, size: u8) -> (r: Self)
        requires
            0 < size,
            offset as u64 + size as u64 <= T::spec_width(),
        ensures
            r.offset_spec() == offset as u64,
            r.mask_spec() == ones(size as u64) << (offset as u64),
    {
        proof {
            T::width_properties();
        }
        let w: u8 = T::width();
        let m: T = T::all().shr(w - size).shl(offset);
        proof {
            lemma_field_mask(
                T::spec_width(),
                offset as u64,
                size as u64,
                (w - size) as u64,
                (64 - T::spec_width()) as u64,
                (64 - size as u64) as u64,
            );
        }
        Bits { offset, mask: m, _reg: PhantomData }
    }

    /// The result of putting `v` into the target bits.  Bits of `v` beyond
    /// the field's size are silently discarded by the mask.
    pub fn val(&self, v: T) -> (r: MaskedVal<T, R>)
        ensures
            r.val_spec() == (v.uval() << self.offset_spec()) & self.mask_spec(),
            r.mask_spec() == self.mask_spec(),
            r.val_spec() & r.mask_spec() == r.val_spec(),
    {
        proof {
            use_type_invariant(self);
        }
        let shifted: T = v.shl(self.offset);
        let masked: T = shifted.and(self.mask);
        proof {
            self.mask.uval_in_range();
            lemma_mask_absorb(
                v.uval() << self.offset_spec(),
                self.mask.uval(),
                ones(T::spec_width()),
            );
        }
        MaskedVal { val: masked, mask: self.mask, _reg: PhantomData }
    }
}

/// Merges two masked values: the combined pattern and mask are the bitwise
/// OR of the operands'.  Where the masks overlap, the shared bits end up as
/// the OR of the operands' bits, not an overwrite.
impl<T: UIntLike, R: RegName> std::ops::Add<MaskedVal<T, R>> for MaskedVal<T, R> {
    type Output = MaskedVal<T, R>;

    fn add(self, rhs: MaskedVal<T, R>) -> (r: MaskedVal<T, R>)
        ensures
            r.val_spec() == self.val_spec() | rhs.val_spec(),
            r.mask_spec() == self.mask_spec() | rhs.mask_spec(),
            r.val_spec() & r.mask_spec() == r.val_spec(),
    {
        proof {
            use_type_invariant(&self);
            use_type_invariant(&rhs);
            lemma_or_preserves_submask(
                self.val.uval(),
                self.mask.uval(),
                rhs.val.uval(),
                rhs.mask.uval(),
            );
        }
        let val: T = self.val.or(rhs.val);
        let mask: T = self.mask.or(rhs.mask);
        proof {
            val.lemma_of_uval();
            mask.lemma_of_uval();
        }
        MaskedVal { val, mask, _reg: PhantomData }
    }
}

impl<T: UIntLike, R: RegName> vstd::std_specs::ops::AddSpecImpl<MaskedVal<T, R>> for MaskedVal<T, R> {
    open spec fn obeys_add_spec() -> bool {
        true
    }

    open spec fn add_req(self, rhs: MaskedVal<T, R>) -> bool {
        true
    }

    closed spec fn add_spec(self, rhs: MaskedVal<T, R>) -> MaskedVal<T, R> {
        MaskedVal {
            val: T::of_uval(self.val.uval() | rhs.val.uval()),
            mask: T::of_uval(self.mask.uval() | rhs.mask.uval()),
            _reg: PhantomData,
        }
    }
}

/// Merges a bare field into a masked value; the bare field's bits are forced
/// to 1.
impl<T: UIntLike, R: RegName> std::ops::Add<Bits<T, R>> for MaskedVal<T, R> {
    type Output = MaskedVal<T, R>;

    fn add(self, rhs: Bits<T, R>) -> (r: MaskedVal<T, R>)
        ensures
            r.val_spec() == self.val_spec() | rhs.mask_spec(),
            r.mask_spec() == self.mask_spec() | rhs.mask_spec(),
            r.val_spec() & r.mask_spec() == r.val_spec(),
    {
        proof {
            use_type_invariant(&self);
            lemma_or_preserves_submask(
                self.val.uval(),
                self.mask.uval(),
                rhs.mask.uval(),
                rhs.mask.uval(),
            );
        }
        let val: T = self.val.or(rhs.mask);
        let mask: T = self.mask.or(rhs.mask);
        proof {
            val.lemma_of_uval();
            mask.lemma_of_uval();
        }
        MaskedVal { val, mask, _reg: PhantomData }
    }
}

impl<T: UIntLike, R: RegName> vstd::std_specs::ops::AddSpecImpl<Bits<T, R>> for MaskedVal<T, R> {
    open spec fn obeys_add_spec() -> bool {
        true
    }

    open spec fn add_req(self, rhs: Bits<T, R>) -> bool {
        true
    }

    closed spec fn add_spec(self, rhs: Bits<T, R>) -> MaskedVal<T, R> {
        MaskedVal {
            val: T::of_uval(self.val.uval() | rhs.mask.uval()),
            mask: T::of_uval(self.mask.uval() | rhs.mask.uval()),
            _reg: PhantomData,
        }
    }
}

/// Merges a masked value into a bare field; the bare field's bits are forced
/// to 1.
impl<T: UIntLike, R: RegName> std::ops::Add<MaskedVal<T, R>> for Bits<T, R> {
    type Output = MaskedVal<T, R>;

    fn add(self, rhs: MaskedVal<T, R>) -> (r: MaskedVal<T, R>)
        ensures
            r.val_spec() == rhs.val_spec() | self.mask_spec(),
            r.mask_spec() == rhs.mask_spec() | self.mask_spec(),
            r.val_spec() & r.mask_spec() == r.val_spec(),
    {
        proof {
            use_type_invariant(&rhs);
            lemma_or_preserves_submask(
                rhs.val.uval(),
                rhs.mask.uval(),
                self.mask.uval(),
                self.mask.uval(),
            );
        }
        let val: T = rhs.val.or(self.mask);
        let mask: T = rhs.mask.or(self.mask);
        proof {
            val.lemma_of_uval();
            mask.lemma_of_uval();
        }
        MaskedVal { val, mask, _reg: PhantomData }
    }
}

impl<T: UIntLike, R: RegName> vstd::std_specs::ops::AddSpecImpl<MaskedVal<T, R>> for Bits<T, R> {
    open spec fn obeys_add_spec() -> bool {
        true
    }

    open spec fn add_req(self, rhs: MaskedVal<T, R>) -> bool {
        true
    }

    closed spec fn add_spec(self, rhs: MaskedVal<T, R>) -> MaskedVal<T, R> {
        MaskedVal {
            val: T::of_uval(rhs.val.uval() | self.mask.uval()),
            mask: T::of_uval(rhs.mask.uval() | self.mask.uval()),
            _reg: PhantomData,
        }
    }
}

/// Merges two descriptors: the combined mask is the OR of the masks, and the
/// recorded offset the smaller of the two offsets.
impl<T: UIntLike, R: RegName> std::ops::Add<Bits<T, R>> for Bits<T, R> {
    type Output = Bits<T, R>;

    fn add(self, rhs: Bits<T, R>) -> (r: Bits<T, R>)
        ensures
            r.mask_spec() == self.mask_spec() | rhs.mask_spec(),
            r.offset_spec() == if self.offset_spec() <= rhs.offset_spec() {
                self.offset_spec()
            } else {
                rhs.offset_spec()
            },
    {
        proof {
            use_type_invariant(&self);
            use_type_invariant(&rhs);
        }
        let offset: u8 = if self.offset <= rhs.offset {
            self.offset
        } else {
            rhs.offset
        };
        let mask: T = self.mask.or(rhs.mask);
        proof {
            mask.lemma_of_uval();
        }
        Bits { offset, mask, _reg: PhantomData }
    }
}

impl<T: UIntLike, R: RegName> vstd::std_specs::ops::AddSpecImpl<Bits<T, R>> for Bits<T, R> {
    open spec fn obeys_add_spec() -> bool {
        true
    }

    open spec fn add_req(self, rhs: Bits<T, R>) -> bool {
        true
    }

    closed spec fn add_spec(self, rhs: Bits<T, R>) -> Bits<T, R> {
        Bits {
            offset: if self.offset <= rhs.offset {
                self.offset
            } else {
                rhs.offset
            },
            mask: T::of_uval(self.mask.uval() | rhs.mask.uval()),
            _reg: PhantomData,
        }
    }
}

/// The ghost content of a register: the raw stored pattern, as a 64-bit
/// value.  Every capability contract below is stated over this view.
pub trait RegValue {
    /// The current raw content of the storage.
    spec fn value(&self) -> u64;
}

/// Reading capability: a raw `read` plus the two operations derivable from it.
pub trait ReadableIO<T: UIntLike, R: RegName = ()>: RegValue {
    /// Reads the register's raw value.  Reading has no side effect and can be
    /// repeated arbitrarily often.
    fn read(&self) -> (r: T)
        ensures
            r.uval() == self.value(),
    ;

    /// Extracts the numeric value held in the target field.  Meant for a
    /// single field's descriptor, not a combined one.
    fn get(&self, bits: Bits<T, R>) -> (r: T)
        ensures
            r.uval() == (self.value() & bits.mask_spec()) >> bits.offset_spec(),
    {
        proof {
            use_type_invariant(&bits);
        }
        self.read().and(bits.mask).shr(bits.offset)
    }

    /// True exactly when every bit under the mask is 1.  For a multi-bit or
    /// combined field this is an all-ones check, not a nonzero check.
    fn is_set(&self, bits: Bits<T, R>) -> (r: bool)
        ensures
            r == (self.value() & bits.mask_spec() == bits.mask_spec()),
    {
        self.read().and(bits.mask).equals(bits.mask)
    }
}

/// Writing capability: a raw `write` plus derived operations.  Every derived
/// operation here clobbers the non-target bits to zero.
pub trait WritableIO<T: UIntLike, R: RegName = ()>: RegValue {
    /// Writes a raw value to the register.
    fn write(&mut self, val: T)
        ensures
            final(self).value() == val.uval(),
    ;

    /// Puts a value into the target bits; all other bits become 0.
    fn put(&mut self, val: MaskedVal<T, R>)
        ensures
            final(self).value() == val.val_spec(),
    {
        self.write(val.val)
    }

    /// Sets the target bits to 1; all other bits become 0.
    fn set(&mut self, bits: Bits<T, R>)
        ensures
            final(self).value() == bits.mask_spec(),
    {
        self.write(bits.mask)
    }

    /// Sets every bit of the register to 1.
    fn set_all(&mut self)
        ensures
            final(self).value() == ones(T::spec_width()),
    {
        self.write(T::all())
    }

    /// Sets every bit of the register to 0.
    fn clear_all(&mut self)
        ensures
            final(self).value() == 0,
    {
        self.write(T::zero())
    }
}

/// Preserving read-modify-write capability, available exactly when a register
/// is both readable and writable.  Unlike the `WritableIO` operations, these
/// leave every bit outside the target mask as it was.
pub trait ReadWritableIO<T: UIntLike, R: RegName = ()>: RegValue {
    /// Puts the value into the target bits while keeping the others
    /// untouched.
    fn put_back(&mut self, val: MaskedVal<T, R>)
        ensures
            final(self).value() == (old(self).value() & !val.mask_spec()) | val.val_spec(),
    ;

    /// Sets the target bits to 1 while keeping the others untouched.
    fn set_back(&mut self, bits: Bits<T, R>)
        ensures
            final(self).value() == old(self).value() | bits.mask_spec(),
    ;

    /// Sets the target bits to 0 while keeping the others untouched.
    fn clear(&mut self, bits: Bits<T, R>)
        ensures
            final(self).value() == old(self).value() & !bits.mask_spec(),
    ;
}

impl<T: UIntLike, R: RegName, U: ReadableIO<T, R> + WritableIO<T, R>> ReadWritableIO<T, R> for U {
    fn put_back(&mut self, val: MaskedVal<T, R>) {
        let cur: T = self.read();
        let kept: T = cur.and(val.mask.not());
        proof {
            cur.uval_in_range();
            lemma_mask_absorb(cur.uval(), val.mask.uval(), ones(T::spec_width()));
        }
        self.write(kept.or(val.val));
    }

    fn set_back(&mut self, bits: Bits<T, R>) {
        let cur: T = self.read();
        self.write(cur.or(bits.mask));
    }

    fn clear(&mut self, bits: Bits<T, R>) {
        let cur: T = self.read();
        proof {
            cur.uval_in_range();
            lemma_mask_absorb(cur.uval(), bits.mask.uval(), ones(T::spec_width()));
        }
        self.write(cur.and(bits.mask.not()));
    }
}

/// Law: for every width and every valid `(offset, size)` declaration, the
/// field's mask has exactly `size` contiguous set bits: bit `i` is set if and
/// only if `offset <= i < offset + size`.  A full-width field (`size` equal
/// to the width) yields the all-ones value.
pub proof fn lemma_field_mask_bits(offset: u64, size: u64, width: u64, i: u64)
    requires
        0 < size,
        offset + size <= width,
        width <= 64,
        i < 64,
    ensures
        bit(ones(size) << offset, i) <==> (offset <= i && i < offset + size),
        size == width ==> ones(size) << offset == ones(width),
{
    lemma_field_bit_bv(offset, size, i, (64 - size) as u64);
}

/// Law: after `put(bits.val(v))`, `get(bits)` returns exactly `v` truncated
/// to the field's size, for any `v` and any field built from a valid
/// `(offset, size)` declaration.  The left-hand side below is `get`'s result
/// composed from the contracts of `val`, `put` and `get`; the right-hand side
/// keeps just the low `size` bits of `v`.
pub proof fn lemma_put_then_get<T: UIntLike, R: RegName>(bits: &Bits<T, R>, v: T, size: u64)
    requires
        0 < size,
        bits.offset_spec() + size <= T::spec_width(),
        bits.mask_spec() == ones(size) << bits.offset_spec(),
    ensures
        ((((v.uval() << bits.offset_spec()) & bits.mask_spec()) & bits.mask_spec())
            >> bits.offset_spec()) == v.uval() & ones(size),
{
    T::width_properties();
    lemma_put_get_bv(v.uval(), bits.offset_spec(), size, (64 - size) as u64);
}

/// Law: a preserving put changes exactly the bits under its mask.  Whatever
/// the prior register content, each bit under the mask takes the pattern's
/// bit, and every bit outside the mask keeps its prior value.  The premise on
/// `val` holds of every `MaskedVal` the library constructs.
pub proof fn lemma_put_back_exact<T: UIntLike, R: RegName>(
    prior: u64,
    val: &MaskedVal<T, R>,
    i: u64,
)
    requires
        val.val_spec() & val.mask_spec() == val.val_spec(),
        i < 64,
    ensures
        bit(val.mask_spec(), i) ==> bit((prior & !val.mask_spec()) | val.val_spec(), i) == bit(
            val.val_spec(),
            i,
        ),
        !bit(val.mask_spec(), i) ==> bit((prior & !val.mask_spec()) | val.val_spec(), i) == bit(
            prior,
            i,
        ),
{
    lemma_put_back_bv(prior, val.val_spec(), val.mask_spec(), i);
}

/// Law: `clear` and `set_back` are inverses on a given mask.  Clearing the
/// mask's bits and then setting them back has the same effect as a single
/// `set_back`, and afterwards every bit under the mask is 1.
pub proof fn lemma_clear_then_set_back<T: UIntLike, R: RegName>(prior: u64, bits: &Bits<T, R>)
    ensures
        (prior & !bits.mask_spec()) | bits.mask_spec() == prior | bits.mask_spec(),
        (prior | bits.mask_spec()) & bits.mask_spec() == bits.mask_spec(),
{
    lemma_clear_set_bv(prior, bits.mask_spec());
}

/// Law: when merged operands cover a shared bit, the merged pattern's bit is
/// the OR of the operands' bits in that position — never an overwrite of one
/// intended value by the other.
pub proof fn lemma_merge_overlap_or<T: UIntLike, R: RegName>(
    a: &MaskedVal<T, R>,
    b: &MaskedVal<T, R>,
    i: u64,
)
    requires
        i < 64,
    ensures
        bit(a.val_spec() | b.val_spec(), i) == (bit(a.val_spec(), i) || bit(b.val_spec(), i)),
{
    lemma_or_bit_bv(a.val_spec(), b.val_spec(), i);
}

proof fn lemma_field_bit_bv(o: u64, s: u64, i: u64, n: u64)
    by (bit_vector)
    ensures
        (0 < s && o + s <= 64 && i < 64 && n == 64 - s) ==> ((((0xffff_ffff_ffff_ffffu64 >> n)
            << o) >> i) & 1 == 1 <==> (o <= i && i < o + s)),
        (o == 0 && s <= 64 && n == 64 - s) ==> ((0xffff_ffff_ffff_ffffu64 >> n) << o) == (
        0xffff_ffff_ffff_ffffu64 >> n),
{
}

#[verifier::rlimit(100)]
proof fn lemma_put_get_bv(v: u64, o: u64, s: u64, n: u64)
    by (bit_vector)
    ensures
        (0 < s && o + s <= 64 && n == 64 - s) ==> ((((v << o) & ((0xffff_ffff_ffff_ffffu64 >> n)
            << o)) & ((0xffff_ffff_ffff_ffffu64 >> n) << o)) >> o) == v & (
        0xffff_ffff_ffff_ffffu64 >> n),
{
}

proof fn lemma_put_back_bv(x: u64, v: u64, m: u64, i: u64)
    by (bit_vector)
    ensures
        (v & m == v && i < 64 && (m >> i) & 1 == 1) ==> (((x & !m) | v) >> i) & 1 == (v >> i) & 1,
        (v & m == v && i < 64 && (m >> i) & 1 != 1) ==> (((x & !m) | v) >> i) & 1 == (x >> i) & 1,
{
}

proof fn lemma_clear_set_bv(x: u64, m: u64)
    by (bit_vector)
    ensures
        (x & !m) | m == x | m,
        (x | m) & m == m,
{
}

proof fn lemma_or_bit_bv(x: u64, y: u64, i: u64)
    by (bit_vector)
    ensures
        i < 64 ==> ((((x | y) >> i) & 1 == 1) <==> ((x >> i) & 1 == 1 || (y >> i) & 1 == 1)),
{
}

proof fn lemma_or_preserves_submask(a: u64, m1: u64, b: u64, m2: u64)
    by (bit_vector)
    ensures
        (a & m1 == a && b & m2 == b) ==> (a | b) & (m1 | m2) == (a | b),
        m2 & m2 == m2,
{
}

proof fn lemma_mask_absorb(x: u64, m: u64, w: u64)
    by (bit_vector)
    ensures
        m & w == m ==> (x & w) & m == x & m,
        (x & m) & m == x & m,
        x & w == x ==> x & (!m & w) == x & !m,
{
}

#[verifier::rlimit(100)]
proof fn lemma_field_mask(w: u64, o: u64, s: u64, d: u64, n1: u64, n2: u64)
    by (bit_vector)
    ensures
        (w <= 64 && 0 < s && s <= 64 && o < 64 && o + s <= w && d == w - s && n1 == 64 - w && n2
            == 64 - s) ==> (((0xffff_ffff_ffff_ffffu64 >> n1) >> d) << o) & (
        0xffff_ffff_ffff_ffffu64 >> n1) == (0xffff_ffff_ffff_ffffu64 >> n2) << o,
{
}

} // verus!
