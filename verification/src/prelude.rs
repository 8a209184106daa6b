//! One-stop import for the register utilities.

pub use core::marker::PhantomData;

pub use crate::register::ROInnerRegister;
pub use crate::register::RWInnerRegister;
pub use crate::register::RegName;
pub use crate::register::WOInnerRegister;
pub use crate::register::bitfield::Bits;
pub use crate::register::bitfield::BitsLike;
pub use crate::register::bitfield::MaskedVal;
pub use crate::register::bitfield::ReadWritableIO;
pub use crate::register::bitfield::ReadableIO;
pub use crate::register::bitfield::RegValue;
pub use crate::register::bitfield::WritableIO;
pub use crate::uint::UIntLike;
