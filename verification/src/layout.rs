//! Layout descriptors: how a type's variants are represented in memory.
//!
//! A descriptor is produced once per type and never changes. It carries the
//! three facts the codec consumes: the classification of the representation,
//! which variants have values at all, and the table of declared discriminants.

use crate::width::{IntTy, Width};
use vstd::prelude::*;

verus! {

/// The identity of a type, cited in errors.
#[derive(Clone, Copy, Debug, PartialEq, Eq, Structural)]
pub struct Ty(pub u32);

/// The position of a variant in declaration order.
#[derive(Clone, Copy, Debug, PartialEq, Eq, Structural)]
pub struct VariantIdx(pub u32);

impl VariantIdx {
    pub fn from_u32(index: u32) -> (v: VariantIdx)
        ensures
            v == VariantIdx(index),
    {
        VariantIdx(index)
    }

    pub fn as_u32(self) -> (index: u32)
        ensures
            index == self.0,
    {
        self.0
    }
}

/// A contiguous run of variants, both ends included.
#[derive(Clone, Copy, Debug, PartialEq, Eq, Structural)]
pub struct VariantRange {
    pub start: VariantIdx,
    pub end: VariantIdx,
}

impl VariantRange {
    pub open spec fn contains(self, v: VariantIdx) -> bool {
        self.start.0 <= v.0 <= self.end.0
    }
}

/// The scalar kind of the field that carries the tag.
#[derive(Clone, Copy, Debug, PartialEq, Eq, Structural)]
pub enum Primitive {
    /// An integer of the given width; `true` for a signed one.
    Int(Width, bool),
    /// A pointer, whose width is that of the target.
    Pointer,
}

impl Primitive {
    /// The plain integer type with this scalar's size: a pointer counts as an
    /// unsigned integer of pointer width.
    pub open spec fn int_ty(self, pointer_size: Width) -> IntTy {
        match self {
            Primitive::Int(width, signed) => IntTy { width, signed },
            Primitive::Pointer => IntTy { width: pointer_size, signed: false },
        }
    }

    /// The plain integer type with this scalar's size.
    pub fn to_int_ty(self, pointer_size: Width) -> (ty: IntTy)
        ensures
            ty == self.int_ty(pointer_size),
    {
        match self {
            Primitive::Int(width, signed) => IntTy { width, signed },
            Primitive::Pointer => IntTy { width: pointer_size, signed: false },
        }
    }
}

/// How the tag relates to the variant.
#[derive(Clone, Copy, Debug, PartialEq, Eq, Structural)]
pub enum TagEncoding {
    /// The tag is the discriminant, truncated to the tag's width.
    Direct,
    /// The variants of `niche_variants` are numbered from `niche_start` on,
    /// wrapping at the tag's width; every other tag value denotes
    /// `untagged_variant`.
    Niche { untagged_variant: VariantIdx, niche_variants: VariantRange, niche_start: u128 },
}

/// The classification of a type's representation.
#[derive(Clone, Copy, Debug, PartialEq, Eq, Structural)]
pub enum Variants {
    /// At most one variant can be represented; memory holds no tag. Types
    /// without any variant are classified so as well.
    Single { index: VariantIdx },
    /// The field `tag_field` tells the variants apart.
    Multiple { tag: Primitive, tag_encoding: TagEncoding, tag_field: usize },
}

/// A type's layout as a mathematical value: what every contract speaks of.
pub struct Layout {
    pub ty: Ty,
    /// The type in which discriminants are computed.
    pub discr: IntTy,
    /// The discriminant of each variant as a bit pattern of `discr`, in
    /// declaration order; empty for a type that declares none.
    pub discriminants: Seq<u128>,
    /// For each variant, whether it has any value.
    pub inhabited: Seq<bool>,
    pub variants: Variants,
    /// The integer type of each scalar field.
    pub fields: Seq<IntTy>,
}

impl Layout {
    pub open spec fn variant_count(self) -> nat {
        self.inhabited.len()
    }

    /// `v` is a variant of this type.
    pub open spec fn declares(self, v: VariantIdx) -> bool {
        (v.0 as int) < self.inhabited.len()
    }

    /// `v` is a variant of this type that has values.
    pub open spec fn inhabits(self, v: VariantIdx) -> bool {
        self.declares(v) && self.inhabited[v.0 as int]
    }

    pub open spec fn has_discriminants(self) -> bool {
        self.discriminants.len() > 0
    }

    /// `v` has a discriminant: it indexes the table, or the type has no table
    /// and `v` is variant 0.
    pub open spec fn resolves(self, v: VariantIdx) -> bool {
        if self.has_discriminants() {
            (v.0 as int) < self.discriminants.len()
        } else {
            v.0 == 0
        }
    }

    /// The discriminant of `v` as a bit pattern of `discr`.
    pub open spec fn discriminant_bits(self, v: VariantIdx) -> u128 {
        if self.has_discriminants() {
            self.discriminants[v.0 as int]
        } else {
            0
        }
    }

    /// The first variant whose discriminant is `bits`, if there is one.
    pub open spec fn variant_of_discriminant(self, bits: u128) -> Option<VariantIdx> {
        match self.discriminants.index_of_first(bits) {
            Some(i) => Some(VariantIdx(i as u32)),
            None => None,
        }
    }

    /// The table of discriminants fits the type: it is empty or has one entry
    /// per variant, each a bit pattern of `discr`.
    pub open spec fn table_wf(self) -> bool {
        &&& self.inhabited.len() <= u32::MAX
        &&& self.has_discriminants() ==> self.discriminants.len() == self.inhabited.len()
        &&& forall|i: int|
            0 <= i < self.discriminants.len() ==> self.discr.width.holds(
                #[trigger] self.discriminants[i] as int,
            )
    }

    /// What holds of every layout: the classification refers to declared
    /// variants and to a field of the tag's integer type, and a niche is a
    /// range of variants, apart from the untagged one, that is no longer than
    /// the tag has values.
    pub open spec fn wf(self, pointer_size: Width) -> bool {
        &&& self.table_wf()
        &&& match self.variants {
            Variants::Single { index } => self.variant_count() > 0 ==> self.declares(index),
            Variants::Multiple { tag, tag_encoding, tag_field } => {
                &&& self.variant_count() > 0
                &&& tag_field < self.fields.len()
                &&& self.fields[tag_field as int] == tag.int_ty(pointer_size)
                &&& match tag_encoding {
                    TagEncoding::Direct => self.has_discriminants(),
                    TagEncoding::Niche { untagged_variant, niche_variants, niche_start } => {
                        &&& niche_variants.start.0 <= niche_variants.end.0
                        &&& self.declares(niche_variants.end)
                        &&& self.declares(untagged_variant)
                        &&& !niche_variants.contains(untagged_variant)
                        &&& tag.int_ty(pointer_size).width.holds(niche_start as int)
                        &&& niche_variants.end.0 - niche_variants.start.0 < tag.int_ty(
                            pointer_size,
                        ).width.modulus()
                    },
                }
            },
        }
    }

    /// A tag can be computed for `v`: the variant is declared and, where the
    /// representation numbers variants, `v` has a number and it fits the tag.
    pub open spec fn encodes(self, pointer_size: Width, v: VariantIdx) -> bool {
        &&& self.declares(v)
        &&& match self.variants {
            Variants::Single { index } => v == index,
            Variants::Multiple { tag, tag_encoding, .. } => match tag_encoding {
                TagEncoding::Direct => true,
                TagEncoding::Niche { untagged_variant, niche_variants, .. } => {
                    ||| v == untagged_variant
                    ||| {
                        &&& niche_variants.start.0 <= v.0
                        &&& v.0 - niche_variants.start.0 < tag.int_ty(pointer_size).width.modulus()
                    }
                },
            },
        }
    }
}

impl Layout {
    /// The encoding of `v` denotes `v` and no other variant: a direct tag is
    /// wide enough to give back the discriminant, which no earlier variant
    /// shares, and a numbered variant lies within the niche range.
    pub open spec fn represents(self, pointer_size: Width, v: VariantIdx) -> bool {
        &&& self.encodes(pointer_size, v)
        &&& match self.variants {
            Variants::Single { .. } => true,
            Variants::Multiple { tag, tag_encoding, .. } => match tag_encoding {
                TagEncoding::Direct => {
                    let tag_ty = tag.int_ty(pointer_size);
                    let bits = self.discriminant_bits(v);
                    &&& tag_ty.cast_spec(tag_ty.width.wrap(bits as int), self.discr.width) == bits
                    &&& forall|w: int| 0 <= w < v.0 ==> self.discriminants[w] != bits
                },
                TagEncoding::Niche { untagged_variant, niche_variants, .. } => {
                    v == untagged_variant || niche_variants.contains(v)
                },
            },
        }
    }
}

/// A type together with its layout.
#[derive(Debug)]
pub struct TyAndLayout {
    pub ty: Ty,
    /// The type in which discriminants are computed.
    pub discr: IntTy,
    /// The discriminant of each variant as a bit pattern of `discr`, in
    /// declaration order; empty for a type that declares none.
    pub discriminants: Vec<u128>,
    /// For each variant, whether it has any value.
    pub inhabited: Vec<bool>,
    pub variants: Variants,
    /// The integer type of each scalar field.
    pub fields: Vec<IntTy>,
}

impl View for TyAndLayout {
    type V = Layout;

    open spec fn view(&self) -> Layout {
        Layout {
            ty: self.ty,
            discr: self.discr,
            discriminants: self.discriminants@,
            inhabited: self.inhabited@,
            variants: self.variants,
            fields: self.fields@,
        }
    }
}

impl TyAndLayout {
    /// Whether `v` is a variant of this type.
    pub fn is_declared(&self, v: VariantIdx) -> (b: bool)
        ensures
            b == self@.declares(v),
    {
        (v.0 as usize) < self.inhabited.len()
    }

    /// Whether `v` has a discriminant.
    pub fn can_resolve(&self, v: VariantIdx) -> (b: bool)
        ensures
            b == self@.resolves(v),
    {
        if self.discriminants.len() > 0 {
            (v.0 as usize) < self.discriminants.len()
        } else {
            v.0 == 0
        }
    }

    /// Whether the table of discriminants fits the type.
    pub fn is_table_well_formed(&self) -> (b: bool)
        ensures
            b == self@.table_wf(),
    {
        if self.inhabited.len() > u32::MAX as usize {
            return false;
        }
        if self.discriminants.len() > 0 && self.discriminants.len() != self.inhabited.len() {
            return false;
        }
        let mut i: usize = 0;
        while i < self.discriminants.len()
            invariant
                i <= self.discriminants@.len(),
                forall|j: int|
                    0 <= j < i ==> self.discr.width.holds(#[trigger] self.discriminants@[j] as int),
            decreases self.discriminants@.len() - i,
        {
            if !self.discr.width.fits(self.discriminants[i]) {
                return false;
            }
            i += 1;
        }
        true
    }

    /// Whether the layout is well formed for a target with pointers of width
    /// `pointer_size`.
    pub fn is_well_formed(&self, pointer_size: Width) -> (b: bool)
        ensures
            b == self@.wf(pointer_size),
    {
        if !self.is_table_well_formed() {
            return false;
        }
        match self.variants {
            Variants::Single { index } => self.inhabited.len() == 0 || self.is_declared(index),
            Variants::Multiple { tag, tag_encoding, tag_field } => {
                if self.inhabited.len() == 0 || tag_field >= self.fields.len() {
                    return false;
                }
                let tag_ty: IntTy = tag.to_int_ty(pointer_size);
                let field_ty: IntTy = self.fields[tag_field];
                if !(field_ty.width == tag_ty.width && field_ty.signed == tag_ty.signed) {
                    return false;
                }
                match tag_encoding {
                    TagEncoding::Direct => self.discriminants.len() > 0,
                    TagEncoding::Niche { untagged_variant, niche_variants, niche_start } => {
                        niche_variants.start.0 <= niche_variants.end.0 && self.is_declared(
                            niche_variants.end,
                        ) && self.is_declared(untagged_variant) && !(niche_variants.start.0
                            <= untagged_variant.0 && untagged_variant.0 <= niche_variants.end.0)
                            && tag_ty.width.fits(niche_start) && tag_ty.width.fits(
                            (niche_variants.end.0 - niche_variants.start.0) as u128,
                        )
                    },
                }
            },
        }
    }

    /// Whether a tag can be computed for `v`.
    pub fn can_encode(&self, pointer_size: Width, v: VariantIdx) -> (b: bool)
        ensures
            b == self@.encodes(pointer_size, v),
    {
        if !self.is_declared(v) {
            return false;
        }
        match self.variants {
            Variants::Single { index } => v.0 == index.0,
            Variants::Multiple { tag, tag_encoding, .. } => match tag_encoding {
                TagEncoding::Direct => true,
                TagEncoding::Niche { untagged_variant, niche_variants, .. } => {
                    v.0 == untagged_variant.0 || (niche_variants.start.0 <= v.0 && tag.to_int_ty(
                        pointer_size,
                    ).width.fits((v.0 - niche_variants.start.0) as u128))
                },
            },
        }
    }

    /// Whether `v` has no values; so has every index that the type does not
    /// declare.
    pub fn is_uninhabited(&self, v: VariantIdx) -> (b: bool)
        ensures
            b == !self@.inhabits(v),
    {
        let i: usize = v.0 as usize;
        i >= self.inhabited.len() || !self.inhabited[i]
    }

    /// The first variant whose discriminant is `bits`, if there is one.
    pub fn find_discriminant(&self, bits: u128) -> (r: Option<VariantIdx>)
        requires
            self@.discriminants.len() <= u32::MAX,
        ensures
            r == self@.variant_of_discriminant(bits),
            r matches Some(v) ==> (v.0 as int) < self@.discriminants.len()
                && self@.discriminants[v.0 as int] == bits,
            r is None ==> !self@.discriminants.contains(bits),
    {
        let mut i: usize = 0;
        while i < self.discriminants.len()
            invariant
                i <= self.discriminants@.len() <= u32::MAX,
                forall|j: int| 0 <= j < i ==> self.discriminants@[j] != bits,
            decreases self.discriminants@.len() - i,
        {
            if self.discriminants[i] == bits {
                proof {
                    assert(self.discriminants@.contains(bits));
                    self.discriminants@.index_of_first_ensures(bits);
                }
                return Some(VariantIdx(i as u32));
            }
            i += 1;
        }
        proof {
            self.discriminants@.index_of_first_ensures(bits);
        }
        None
    }
}

} // verus!
