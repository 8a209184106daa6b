//! Register representations.
//!
//! A register is raw storage of one of the supported widths, together with a
//! compile-time tag tying it to the bit fields declared for it.  Three shapes
//! exist: read-only, write-only and read-write; each offers exactly the
//! capabilities its access mode allows.
//!
//! Storage is held directly and driven through an exclusive reference; every
//! operation is a single synchronous load or store.  The composite preserving
//! operations are a load followed by a store, with no atomicity across the
//! pair: a concurrent writer acting between the two can be lost.

pub mod bitfield;

use core::marker::PhantomData;

use vstd::prelude::*;

use crate::register::bitfield::BitsLike;
use crate::register::bitfield::ReadableIO;
use crate::register::bitfield::RegValue;
use crate::register::bitfield::WritableIO;
use crate::uint::UIntLike;

verus! {

/// Compile-time marker naming one register's field family.  The unit type is
/// the universal untagged marker, usable with any register.
pub trait RegName {}

impl RegName for () {}

/// A read-only register: raw storage of width `T`, offering `ReadableIO`
/// only.  It holds nothing but the raw storage, so a generated layout can
/// place it at an exact byte offset.
pub struct ROInnerRegister<T: UIntLike, R: RegName + BitsLike<T> = ()> {
    raw: T,
    _reg: PhantomData<R>,
}

impl<T: UIntLike, R: RegName + BitsLike<T>> ROInnerRegister<T, R> {
    /// Places a read-only register holding `raw`.
    pub fn new(raw: T) -> (r: Self)
        ensures
            r.value() == raw.uval(),
    {
        ROInnerRegister { raw, _reg: PhantomData }
    }
}

impl<T: UIntLike, R: RegName + BitsLike<T>> RegValue for ROInnerRegister<T, R> {
    closed spec fn value(&self) -> u64 {
        self.raw.uval()
    }
}

impl<T: UIntLike, R: RegName + BitsLike<T>> ReadableIO<T, R> for ROInnerRegister<T, R> {
    fn read(&self) -> (r: T) {
        self.raw
    }
}

/// A write-only register: raw storage of width `T`, offering `WritableIO`
/// only.  The absence of `read` mirrors hardware where the stored value
/// cannot be observed by software.
pub struct WOInnerRegister<T: UIntLike, R: RegName + BitsLike<T> = ()> {
    raw: T,
    _reg: PhantomData<R>,
}

impl<T: UIntLike, R: RegName + BitsLike<T>> WOInnerRegister<T, R> {
    /// Places a write-only register holding `raw`.
    pub fn new(raw: T) -> (r: Self)
        ensures
            r.value() == raw.uval(),
    {
        WOInnerRegister { raw, _reg: PhantomData }
    }
}

impl<T: UIntLike, R: RegName + BitsLike<T>> RegValue for WOInnerRegister<T, R> {
    closed spec fn value(&self) -> u64 {
        self.raw.uval()
    }
}

impl<T: UIntLike, R: RegName + BitsLike<T>> WritableIO<T, R> for WOInnerRegister<T, R> {
    fn write(&mut self, val: T) {
        self.raw = val;
    }
}

/// A read-write register: raw storage of width `T`, implementing both
/// `ReadableIO` and `WritableIO` explicitly, so the preserving operations of
/// `ReadWritableIO` are available on it.  The clobbering `WritableIO`
/// operations remain available under their own names; the preserving ones are
/// named differently so a caller cannot destroy unrelated register state by
/// accident.
pub struct RWInnerRegister<T: UIntLike, R: RegName + BitsLike<T> = ()> {
    raw: T,
    _reg: PhantomData<R>,
}

impl<T: UIntLike, R: RegName + BitsLike<T>> RWInnerRegister<T, R> {
    /// Places a read-write register holding `raw`.
    pub fn new(raw: T) -> (r: Self)
        ensures
            r.value() == raw.uval(),
    {
        RWInnerRegister { raw, _reg: PhantomData }
    }
}

impl<T: UIntLike, R: RegName + BitsLike<T>> RegValue for RWInnerRegister<T, R> {
    closed spec fn value(&self) -> u64 {
        self.raw.uval()
    }
}

impl<T: UIntLike, R: RegName + BitsLike<T>> ReadableIO<T, R> for RWInnerRegister<T, R> {
    fn read(&self) -> (r: T) {
        self.raw
    }
}

impl<T: UIntLike, R: RegName + BitsLike<T>> WritableIO<T, R> for RWInnerRegister<T, R> {
    fn write(&mut self, val: T) {
        self.raw = val;
    }
}

} // verus!
