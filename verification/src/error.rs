//! The ways in which reading or writing a discriminant fails.

use crate::layout::{Ty, VariantIdx};
use crate::scalar::Scalar;
use vstd::prelude::*;

verus! {

/// A failure of the interpreted program, each naming the offending datum.
///
/// The first four are undefined behaviour detected by the codec itself; the
/// last two come from memory and are passed on unchanged.
#[derive(Clone, Copy, Debug, PartialEq, Eq, Structural)]
pub enum InterpError {
    /// A variant without values was to be written.
    UninhabitedVariantWritten(VariantIdx),
    /// Memory denotes a variant that has no values.
    UninhabitedVariantRead(VariantIdx),
    /// The tag field holds the given value, which denotes no variant.
    InvalidTag(Scalar),
    /// A variant that is encoded by the absence of a tag was to be written
    /// into memory that does not already denote it.
    InvalidNichedVariantWritten { enum_ty: Ty },
    /// The given field was read before it was initialized.
    ReadUninit { field: usize },
    /// The location does not accept writes.
    WriteToReadOnly,
}

} // verus!
