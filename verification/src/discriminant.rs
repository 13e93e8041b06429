//! Reading and writing the discriminant of a value of a multi-variant layout.
//!
//! The *discriminant* is the value associated with a variant; the *variant
//! index* is the variant's position in the declaration, and the two differ
//! wherever discriminants are assigned explicitly. The *tag* is how memory
//! encodes the variant: directly, as the truncated discriminant, or through a
//! niche.

use crate::error::InterpError;
use crate::layout::{Layout, TagEncoding, TyAndLayout, VariantIdx, Variants};
use crate::lemmas::lemma_write_then_read;
use crate::memory::{slot_wf, InterpCx, MPlaceTy, Place};
use crate::scalar::{Scalar, ScalarInt};
use crate::width::{IntTy, Width};
use vstd::prelude::*;

verus! {

impl InterpCx {
    /// The discriminant of variant `v`, sized as the type's discriminants are.
    pub open spec fn discriminant_spec(self, layout: Layout, v: VariantIdx) -> ScalarInt {
        ScalarInt { data: layout.discriminant_bits(v), size: layout.discr.width }
    }

    /// The tag to be stored for variant `v` and the field to store it in, or
    /// `None` where the variant is encoded without a store.
    ///
    /// A direct tag is the discriminant truncated to the tag's width. A niche
    /// tag is the variant's offset into the niche range plus `niche_start`,
    /// wrapping at the tag's width.
    pub open spec fn tag_spec(self, layout: Layout, v: VariantIdx) -> Option<(ScalarInt, usize)> {
        match layout.variants {
            Variants::Single { .. } => None,
            Variants::Multiple { tag, tag_encoding, tag_field } => {
                let width = tag.int_ty(self.pointer_size).width;
                match tag_encoding {
                    TagEncoding::Direct => Some(
                        (
                            ScalarInt {
                                data: width.wrap(layout.discriminant_bits(v) as int) as u128,
                                size: width,
                            },
                            tag_field,
                        ),
                    ),
                    TagEncoding::Niche { untagged_variant, niche_variants, niche_start } => {
                        if v == untagged_variant {
                            None
                        } else {
                            Some(
                                (
                                    ScalarInt {
                                        data: width.wrap(
                                            v.0 - niche_variants.start.0 + niche_start,
                                        ) as u128,
                                        size: width,
                                    },
                                    tag_field,
                                ),
                            )
                        }
                    },
                }
            },
        }
    }

    /// The variant that the tag value `tag_val` denotes in a layout with a
    /// tag, whether or not that variant has values.
    ///
    /// A direct tag is extended to the discriminant's width and looked up in
    /// the table. A niche tag is taken relative to `niche_start`, wrapping at
    /// the tag's width: an offset within the niche range denotes the variant
    /// at that offset, any other the untagged variant. A pointer-like value
    /// has no bits to look at; it is accepted only where the niche is the
    /// single value zero and the pointer cannot be null.
    pub open spec fn variant_of_tag(self, layout: Layout, tag_val: Scalar) -> Result<
        VariantIdx,
        InterpError,
    > {
        match layout.variants {
            Variants::Single { index } => Ok(index),
            Variants::Multiple { tag, tag_encoding, .. } => {
                let tag_ty = tag.int_ty(self.pointer_size);
                match tag_encoding {
                    TagEncoding::Direct => match tag_val {
                        Scalar::Ptr(_) => Err(InterpError::InvalidTag(tag_val)),
                        Scalar::Int(i) => match layout.variant_of_discriminant(
                            tag_ty.cast_spec(i.data as int, layout.discr.width) as u128,
                        ) {
                            Some(v) => Ok(v),
                            None => Err(InterpError::InvalidTag(tag_val)),
                        },
                    },
                    TagEncoding::Niche { untagged_variant, niche_variants, niche_start } => {
                        match tag_val {
                            Scalar::Ptr(p) => if niche_start == 0 && niche_variants.start
                                == niche_variants.end && !p.may_be_null {
                                Ok(untagged_variant)
                            } else {
                                Err(InterpError::InvalidTag(tag_val))
                            },
                            Scalar::Int(i) => {
                                let relative = tag_ty.width.wrap(i.data - niche_start);
                                if relative <= niche_variants.end.0 - niche_variants.start.0 {
                                    Ok(VariantIdx((niche_variants.start.0 + relative) as u32))
                                } else {
                                    Ok(untagged_variant)
                                }
                            },
                        }
                    },
                }
            },
        }
    }

    /// The variant that `tag_val` denotes, which must have values.
    pub open spec fn decode_tag_spec(self, layout: Layout, tag_val: Scalar) -> Result<
        VariantIdx,
        InterpError,
    > {
        match self.variant_of_tag(layout, tag_val) {
            Err(e) => Err(e),
            Ok(v) => if layout.inhabits(v) {
                Ok(v)
            } else {
                Err(InterpError::UninhabitedVariantRead(v))
            },
        }
    }

    /// The variant that `op` holds: the sole one of a layout without a tag,
    /// else the one that the tag field denotes. A variant without values is
    /// never the answer.
    pub open spec fn read_discriminant_spec(self, op: Place) -> Result<VariantIdx, InterpError> {
        match op.layout.variants {
            Variants::Single { index } => if op.layout.inhabits(index) {
                Ok(index)
            } else {
                Err(InterpError::UninhabitedVariantRead(index))
            },
            Variants::Multiple { tag_field, .. } => match op.read(tag_field) {
                Err(e) => Err(e),
                Ok(tag_val) => self.decode_tag_spec(op.layout, tag_val),
            },
        }
    }

    /// How writing variant `v` to `dest` ends.
    pub open spec fn write_discriminant_spec(self, v: VariantIdx, dest: Place) -> Result<
        (),
        InterpError,
    > {
        if !dest.layout.inhabits(v) {
            Err(InterpError::UninhabitedVariantWritten(v))
        } else {
            match self.tag_spec(dest.layout, v) {
                Some(_) => if dest.mutable {
                    Ok(())
                } else {
                    Err(InterpError::WriteToReadOnly)
                },
                None => match self.read_discriminant_spec(dest) {
                    Err(e) => Err(e),
                    Ok(actual) => if actual == v {
                        Ok(())
                    } else {
                        Err(InterpError::InvalidNichedVariantWritten { enum_ty: dest.layout.ty })
                    },
                },
            }
        }
    }

    /// What `dest` holds after variant `v` was written to it: the tag in the
    /// tag field where a tag is stored and the write succeeds, else what it
    /// held before.
    pub open spec fn place_after_write(self, v: VariantIdx, dest: Place) -> Place {
        match self.tag_spec(dest.layout, v) {
            Some((tag, field)) => if dest.layout.inhabits(v) && dest.mutable {
                dest.store(field, Scalar::Int(tag))
            } else {
                dest
            },
            None => dest,
        }
    }

    /// The discriminant of `variant` in the width of the type's discriminants.
    /// A type without a table of discriminants has variant 0 alone, with
    /// discriminant 0.
    pub fn discriminant_for_variant(&self, layout: &TyAndLayout, variant: VariantIdx) -> (r:
        ScalarInt)
        requires
            layout@.table_wf(),
            layout@.resolves(variant),
        ensures
            r == self.discriminant_spec(layout@, variant),
            r.wf(),
    {
        if layout.discriminants.len() > 0 {
            ScalarInt { data: layout.discriminants[variant.0 as usize], size: layout.discr.width }
        } else {
            ScalarInt { data: 0, size: layout.discr.width }
        }
    }

    /// Computes how to write the tag of `variant_index`: `None` where nothing
    /// is to be done because the variant is encoded implicitly, else the
    /// integer to store and the index of the field to store it in.
    pub fn tag_for_variant(&self, layout: &TyAndLayout, variant_index: VariantIdx) -> (r: Option<
        (ScalarInt, usize),
    >)
        requires
            layout@.wf(self.pointer_size),
            layout@.encodes(self.pointer_size, variant_index),
        ensures
            r == self.tag_spec(layout@, variant_index),
            r matches Some((tag, field)) ==> tag.wf() && field < layout@.fields.len()
                && layout@.fields[field as int].width == tag.size,
    {
        match layout.variants {
            Variants::Single { .. } => None,
            Variants::Multiple { tag, tag_encoding, tag_field } => {
                let width: Width = tag.to_int_ty(self.pointer_size).width;
                match tag_encoding {
                    TagEncoding::Direct => {
                        // Discriminants are computed in a type at least as wide as the
                        // tag; memory keeps the low bits.
                        let discr: ScalarInt = self.discriminant_for_variant(layout, variant_index);
                        let tag_val: u128 = width.truncate(discr.data);
                        Some((ScalarInt { data: tag_val, size: width }, tag_field))
                    },
                    TagEncoding::Niche { untagged_variant, niche_variants, niche_start } => {
                        if untagged_variant.0 == variant_index.0 {
                            // Any value outside the niche denotes this variant.
                            None
                        } else {
                            let relative: u32 = variant_index.0 - niche_variants.start.0;
                            let tag_val: u128 = width.wrapping_add(relative as u128, niche_start);
                            Some((ScalarInt { data: tag_val, size: width }, tag_field))
                        }
                    },
                }
            },
        }
    }

    /// The variant that the value `tag_val` of the tag field denotes.
    pub fn decode_tag(&self, layout: &TyAndLayout, tag_val: Scalar) -> (r: Result<
        VariantIdx,
        InterpError,
    >)
        requires
            layout@.wf(self.pointer_size),
            layout@.variants matches Variants::Multiple { tag, .. } && slot_wf(
                tag.int_ty(self.pointer_size),
                Some(tag_val),
                self.pointer_size,
            ),
        ensures
            r == self.decode_tag_spec(layout@, tag_val),
            r matches Ok(v) ==> layout@.inhabits(v),
    {
        let index: VariantIdx = match layout.variants {
            Variants::Single { index } => index,
            Variants::Multiple { tag, tag_encoding, .. } => {
                let tag_ty: IntTy = tag.to_int_ty(self.pointer_size);
                match tag_encoding {
                    TagEncoding::Direct => {
                        let tag_int: ScalarInt = match tag_val.try_to_int() {
                            Ok(i) => i,
                            Err(raw) => {
                                return Err(InterpError::InvalidTag(raw));
                            },
                        };
                        let discr_bits: u128 = tag_ty.cast(tag_int.data, layout.discr.width);
                        match layout.find_discriminant(discr_bits) {
                            Some(v) => v,
                            None => {
                                return Err(InterpError::InvalidTag(Scalar::Int(tag_int)));
                            },
                        }
                    },
                    TagEncoding::Niche { untagged_variant, niche_variants, niche_start } => {
                        match tag_val.try_to_int() {
                            Err(raw) => {
                                // A pointer cannot be compared with the niche. Where the
                                // niche is the value zero alone, a pointer that is not
                                // null lies outside it; all else is rejected.
                                let ptr_valid: bool = niche_start == 0 && niche_variants.start.0
                                    == niche_variants.end.0 && !self.scalar_may_be_null(tag_val);
                                if !ptr_valid {
                                    return Err(InterpError::InvalidTag(raw));
                                }
                                untagged_variant
                            },
                            Ok(tag_int) => {
                                let relative: u128 = tag_ty.width.wrapping_sub(
                                    tag_int.data,
                                    niche_start,
                                );
                                let last: u32 = niche_variants.end.0 - niche_variants.start.0;
                                if relative <= last as u128 {
                                    VariantIdx(niche_variants.start.0 + relative as u32)
                                } else {
                                    untagged_variant
                                }
                            },
                        }
                    },
                }
            },
        };
        if layout.is_uninhabited(index) {
            return Err(InterpError::UninhabitedVariantRead(index));
        }
        Ok(index)
    }

    /// Reads the discriminant of the value in `op` and returns the index of
    /// its variant, which is never one without values.
    pub fn read_discriminant(&self, op: &MPlaceTy) -> (r: Result<VariantIdx, InterpError>)
        requires
            op@.wf(self.pointer_size),
        ensures
            r == self.read_discriminant_spec(op@),
            r matches Ok(v) ==> op@.layout.inhabits(v),
    {
        match op.layout.variants {
            Variants::Single { index } => {
                // A type without variants is classified so too, and then no
                // index has values.
                if op.layout.is_uninhabited(index) {
                    return Err(InterpError::UninhabitedVariantRead(index));
                }
                Ok(index)
            },
            Variants::Multiple { tag_field, .. } => {
                let tag_val: Scalar = match self.read_scalar(op, tag_field) {
                    Ok(value) => value,
                    Err(e) => {
                        return Err(e);
                    },
                };
                self.decode_tag(&op.layout, tag_val)
            },
        }
    }

    /// Writes the discriminant of variant `variant_index` to `dest`.
    ///
    /// A variant without values cannot be written. Where the variant has a
    /// tag, the tag is stored in the tag field. Where it is encoded by the
    /// absence of a tag, nothing is stored, and the write succeeds only if
    /// `dest` already denotes the variant.
    pub fn write_discriminant(&self, variant_index: VariantIdx, dest: &mut MPlaceTy) -> (r: Result<
        (),
        InterpError,
    >)
        requires
            old(dest)@.wf(self.pointer_size),
            old(dest)@.layout.declares(variant_index),
            old(dest)@.layout.inhabits(variant_index) ==> old(dest)@.layout.encodes(
                self.pointer_size,
                variant_index,
            ),
        ensures
            r == self.write_discriminant_spec(variant_index, old(dest)@),
            final(dest)@ == self.place_after_write(variant_index, old(dest)@),
            final(dest)@.wf(self.pointer_size),
            r is Err ==> final(dest)@ == old(dest)@,
            r is Ok && old(dest)@.layout.represents(self.pointer_size, variant_index)
                ==> self.read_discriminant_spec(final(dest)@) == Ok::<VariantIdx, InterpError>(
                variant_index,
            ),
    {
        proof {
            if old(dest)@.layout.represents(self.pointer_size, variant_index)
                && self.write_discriminant_spec(variant_index, old(dest)@) is Ok {
                lemma_write_then_read(*self, variant_index, old(dest)@);
            }
        }
        // No tag stands for a variant without values: layouts leave such
        // variants out.
        if dest.layout.is_uninhabited(variant_index) {
            return Err(InterpError::UninhabitedVariantWritten(variant_index));
        }
        match self.tag_for_variant(&dest.layout, variant_index) {
            Some((tag, tag_field)) => self.write_scalar(Scalar::Int(tag), dest, tag_field),
            None => {
                // Nothing is stored for an implicitly encoded variant. The data
                // in `dest` must then denote it already.
                let actual_variant: VariantIdx = match self.read_discriminant(dest) {
                    Ok(v) => v,
                    Err(e) => {
                        return Err(e);
                    },
                };
                if actual_variant.0 != variant_index.0 {
                    return Err(
                        InterpError::InvalidNichedVariantWritten { enum_ty: dest.layout.ty },
                    );
                }
                Ok(())
            },
        }
    }
}

} // verus!
