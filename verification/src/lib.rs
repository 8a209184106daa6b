//! Register and bit-field utilities for memory-mapped hardware access.
//!
//! The crate models registers of 8, 16, 32 or 64 bits together with the
//! contiguous bit fields declared inside them.  Field descriptors carry a
//! compile-time register tag so that a field declared for one register can
//! never be applied to another, and every operation on a register is specified
//! exactly, down to the bit, in its contract.

pub mod prelude;
pub mod register;
pub mod uint;
