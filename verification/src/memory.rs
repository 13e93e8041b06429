//! Typed memory as the codec sees it: a location that holds a value of a
//! type, field by field, and the interpreter's access to it.

use crate::error::InterpError;
use crate::layout::{Layout, TyAndLayout};
use crate::scalar::Scalar;
use crate::width::{IntTy, Width};
use vstd::prelude::*;

verus! {

/// What a field of type `field` may hold: nothing, an integer of the field's
/// width, or a pointer where the field is as wide as one.
pub open spec fn slot_wf(field: IntTy, slot: Option<Scalar>, pointer_size: Width) -> bool {
    match slot {
        None => true,
        Some(Scalar::Int(i)) => i.size == field.width && i.wf(),
        Some(Scalar::Ptr(_)) => field.width == pointer_size,
    }
}

/// A location as a mathematical value: what every contract speaks of.
pub struct Place {
    pub layout: Layout,
    /// What each scalar field holds; `None` while it is not initialized.
    pub fields: Seq<Option<Scalar>>,
    /// Whether the location accepts writes.
    pub mutable: bool,
}

impl Place {
    /// The layout is well formed and every field holds what its type allows.
    pub open spec fn wf(self, pointer_size: Width) -> bool {
        &&& self.layout.wf(pointer_size)
        &&& self.fields.len() == self.layout.fields.len()
        &&& forall|i: int|
            0 <= i < self.fields.len() ==> slot_wf(
                self.layout.fields[i],
                #[trigger] self.fields[i],
                pointer_size,
            )
    }

    /// What a read of field `field` gives.
    pub open spec fn read(self, field: usize) -> Result<Scalar, InterpError> {
        match self.fields[field as int] {
            Some(value) => Ok(value),
            None => Err(InterpError::ReadUninit { field }),
        }
    }

    /// The location once `value` is stored in field `field`.
    pub open spec fn store(self, field: usize, value: Scalar) -> Place {
        Place { fields: self.fields.update(field as int, Some(value)), ..self }
    }
}

/// A location that holds a value of the type `layout.ty`.
#[derive(Debug)]
pub struct MPlaceTy {
    pub layout: TyAndLayout,
    /// What each scalar field holds; `None` while it is not initialized.
    pub fields: Vec<Option<Scalar>>,
    /// Whether the location accepts writes.
    pub mutable: bool,
}

impl View for MPlaceTy {
    type V = Place;

    open spec fn view(&self) -> Place {
        Place { layout: self.layout@, fields: self.fields@, mutable: self.mutable }
    }
}

impl MPlaceTy {
    /// Whether the layout is well formed and every field holds what its type
    /// allows.
    pub fn is_well_formed(&self, pointer_size: Width) -> (b: bool)
        ensures
            b == self@.wf(pointer_size),
    {
        if !self.layout.is_well_formed(pointer_size) {
            return false;
        }
        if self.fields.len() != self.layout.fields.len() {
            return false;
        }
        let mut i: usize = 0;
        while i < self.fields.len()
            invariant
                i <= self.fields@.len(),
                self.fields@.len() == self.layout.fields@.len(),
                forall|j: int|
                    0 <= j < i ==> slot_wf(
                        self.layout.fields@[j],
                        #[trigger] self.fields@[j],
                        pointer_size,
                    ),
            decreases self.fields@.len() - i,
        {
            let field_ty: IntTy = self.layout.fields[i];
            let ok: bool = match self.fields[i] {
                None => true,
                Some(Scalar::Int(x)) => x.size == field_ty.width && x.size.fits(x.data),
                Some(Scalar::Ptr(_)) => field_ty.width == pointer_size,
            };
            if !ok {
                return false;
            }
            i += 1;
        }
        true
    }
}

/// The interpreter's context: what of the target machine the codec depends on.
#[derive(Clone, Copy, Debug)]
pub struct InterpCx {
    /// The width of a pointer on the target.
    pub pointer_size: Width,
}

impl InterpCx {
    /// Reads the scalar in field `field` of `place`.
    pub fn read_scalar(&self, place: &MPlaceTy, field: usize) -> (r: Result<Scalar, InterpError>)
        requires
            field < place@.fields.len(),
        ensures
            r == place@.read(field),
    {
        match place.fields[field] {
            Some(value) => Ok(value),
            None => Err(InterpError::ReadUninit { field }),
        }
    }

    /// Stores `value` in field `field` of `place`. A location that does not
    /// accept writes is left as it was.
    pub fn write_scalar(&self, value: Scalar, place: &mut MPlaceTy, field: usize) -> (r: Result<
        (),
        InterpError,
    >)
        requires
            field < old(place)@.fields.len(),
        ensures
            old(place)@.mutable ==> r == Ok::<(), InterpError>(()) && final(place)@ == old(
                place,
            )@.store(field, value),
            !old(place)@.mutable ==> r == Err::<(), InterpError>(InterpError::WriteToReadOnly)
                && final(place)@ == old(place)@,
    {
        if !place.mutable {
            return Err(InterpError::WriteToReadOnly);
        }
        place.fields.set(field, Some(value));
        Ok(())
    }

    /// Whether `scalar` may be the null address: an integer is when it is
    /// zero, a pointer when it may lie outside its allocation.
    pub fn scalar_may_be_null(&self, scalar: Scalar) -> (b: bool)
        ensures
            b == match scalar {
                Scalar::Int(i) => i.data == 0,
                Scalar::Ptr(p) => p.may_be_null,
            },
    {
        match scalar {
            Scalar::Int(i) => i.is_null(),
            Scalar::Ptr(p) => p.may_be_null,
        }
    }
}

} // verus!
