//! The width the engine stores its fields at.
//!
//! The rounding a narrower width would apply is floating-point and stands
//! beside this crate; the choice of width is here.

use vstd::prelude::*;

verus! {

/// The width a field is stored at between one kernel and the next.
#[derive(Debug, Clone, Copy, PartialEq, Eq, Structural)]
pub enum StorageWidth {
    /// The width the solver stores at: a double, ~15.9 decimal digits.
    F64,
    /// The width proposed for the bulk grid data: a single, ~7.2 decimal
    /// digits.
    F32,
}

/// The width this build stores its fields at: a double in every build the
/// project ships.
pub const FIELD_STORAGE: StorageWidth = StorageWidth::F64;

} // verus!
