//! Scalar values as memory holds them: plain integers and pointer-like values.

use crate::width::Width;
use vstd::prelude::*;

verus! {

/// An integer of a known width, as its raw bit pattern.
#[derive(Clone, Copy, Debug, PartialEq, Eq, Structural)]
pub struct ScalarInt {
    pub data: u128,
    pub size: Width,
}

impl ScalarInt {
    /// The bits lie within the width.
    pub open spec fn wf(self) -> bool {
        self.size.holds(self.data as int)
    }

    /// The integer `value` at width `size`, or `None` where it has more bits.
    pub fn try_from_uint(value: u128, size: Width) -> (r: Option<ScalarInt>)
        ensures
            r == if size.holds(value as int) {
                Some(ScalarInt { data: value, size })
            } else {
                None
            },
    {
        if size.fits(value) {
            Some(ScalarInt { data: value, size })
        } else {
            None
        }
    }

    /// Whether all bits are zero.
    pub fn is_null(self) -> (b: bool)
        ensures
            b == (self.data == 0),
    {
        self.data == 0
    }
}

/// A pointer-like value: an address known only as an offset into an
/// allocation, so that it has no bit pattern to compute with.
#[derive(Clone, Copy, Debug, PartialEq, Eq, Structural)]
pub struct Pointer {
    pub alloc_id: u64,
    pub offset: u64,
    /// Whether the address may be the null address; it cannot be while the
    /// offset stays within the allocation.
    pub may_be_null: bool,
}

/// What a scalar location holds once it is initialized.
#[derive(Clone, Copy, Debug, PartialEq, Eq, Structural)]
pub enum Scalar {
    Int(ScalarInt),
    Ptr(Pointer),
}

impl Scalar {
    /// The integer held, or the value itself where it is pointer-like.
    pub fn try_to_int(self) -> (r: Result<ScalarInt, Scalar>)
        ensures
            r == match self {
                Scalar::Int(i) => Ok::<ScalarInt, Scalar>(i),
                Scalar::Ptr(_) => Err(self),
            },
    {
        match self {
            Scalar::Int(i) => Ok(i),
            Scalar::Ptr(_) => Err(self),
        }
    }
}

} // verus!
