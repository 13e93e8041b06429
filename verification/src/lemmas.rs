//! What holds of reading and writing together.

use crate::error::InterpError;
use crate::layout::{Layout, TagEncoding, VariantIdx, Variants};
use crate::memory::{InterpCx, Place};
use crate::scalar::Scalar;
use crate::width::lemma_wrapping_sub_undoes_add;
use vstd::prelude::*;

verus! {

/// Decoding inverts encoding: the tag computed for a variant that the layout
/// represents denotes that variant again.
pub proof fn lemma_tag_denotes_its_variant(cx: InterpCx, layout: Layout, v: VariantIdx)
    requires
        layout.wf(cx.pointer_size),
        layout.represents(cx.pointer_size, v),
        cx.tag_spec(layout, v) is Some,
    ensures
        cx.variant_of_tag(layout, Scalar::Int(cx.tag_spec(layout, v).unwrap().0)) == Ok::<
            VariantIdx,
            InterpError,
        >(v),
{
    match layout.variants {
        Variants::Single { .. } => {},
        Variants::Multiple { tag, tag_encoding, .. } => {
            let tag_ty = tag.int_ty(cx.pointer_size);
            match tag_encoding {
                TagEncoding::Direct => {
                    let bits = layout.discriminant_bits(v);
                    layout.discriminants.index_of_first_ensures(bits);
                    assert(layout.discriminants[v.0 as int] == bits);
                    assert(layout.discriminants.contains(bits));
                },
                TagEncoding::Niche { niche_variants, niche_start, .. } => {
                    lemma_wrapping_sub_undoes_add(
                        tag_ty.width,
                        v.0 - niche_variants.start.0,
                        niche_start as int,
                    );
                },
            }
        },
    }
}

/// Round trip: after a write of variant `v` that succeeds, a read gives `v`.
///
/// This is stated of the variants that the layout represents. A write of any
/// other variant may succeed and yet be read back as another variant: a
/// discriminant that does not survive truncation to the tag, or one that an
/// earlier variant shares, is such a case.
pub proof fn lemma_write_then_read(cx: InterpCx, v: VariantIdx, dest: Place)
    requires
        dest.wf(cx.pointer_size),
        dest.layout.represents(cx.pointer_size, v),
        cx.write_discriminant_spec(v, dest) is Ok,
    ensures
        cx.read_discriminant_spec(cx.place_after_write(v, dest)) == Ok::<VariantIdx, InterpError>(
            v,
        ),
{
    if cx.tag_spec(dest.layout, v) is Some {
        lemma_tag_denotes_its_variant(cx, dest.layout, v);
    }
}

/// A write of a variant that has a tag succeeds on every writable location,
/// whatever the location held.
pub proof fn lemma_tagged_write_succeeds(cx: InterpCx, v: VariantIdx, dest: Place)
    requires
        dest.layout.inhabits(v),
        dest.mutable,
        cx.tag_spec(dest.layout, v) is Some,
    ensures
        cx.write_discriminant_spec(v, dest) is Ok,
{
}

/// A variant without values is rejected both ways: a write of it fails and
/// leaves the location as it was, and no read gives it.
pub proof fn lemma_uninhabited_rejected(cx: InterpCx, v: VariantIdx, place: Place)
    requires
        !place.layout.inhabits(v),
    ensures
        cx.write_discriminant_spec(v, place) == Err::<(), InterpError>(
            InterpError::UninhabitedVariantWritten(v),
        ),
        cx.place_after_write(v, place) == place,
        cx.read_discriminant_spec(place) != Ok::<VariantIdx, InterpError>(v),
        forall|tag_val: Scalar|
            cx.variant_of_tag(place.layout, tag_val) == Ok::<VariantIdx, InterpError>(v) ==> (
            #[trigger] cx.decode_tag_spec(place.layout, tag_val)) == Err::<
                VariantIdx,
                InterpError,
            >(InterpError::UninhabitedVariantRead(v)),
{
}

/// A read depends on the layout and on what the tag field holds, and on
/// nothing else: two locations that agree on these are read alike, and so is
/// one location read twice.
pub proof fn lemma_read_repeatable(cx: InterpCx, a: Place, b: Place)
    requires
        a.layout == b.layout,
        a.layout.variants matches Variants::Multiple { tag_field, .. } ==> a.fields[tag_field as int]
            == b.fields[tag_field as int],
    ensures
        cx.read_discriminant_spec(a) == cx.read_discriminant_spec(b),
{
}

/// A write that fails changes nothing, so a read after it gives what a read
/// before it gave.
pub proof fn lemma_failed_write_keeps_place(cx: InterpCx, v: VariantIdx, dest: Place)
    requires
        cx.write_discriminant_spec(v, dest) is Err,
    ensures
        cx.place_after_write(v, dest) == dest,
{
}

/// A write touches the tag field or nothing: every other field, the layout
/// and the writability are as before.
pub proof fn lemma_write_touches_tag_field_only(cx: InterpCx, v: VariantIdx, dest: Place)
    requires
        dest.wf(cx.pointer_size),
    ensures
        cx.place_after_write(v, dest).layout == dest.layout,
        cx.place_after_write(v, dest).mutable == dest.mutable,
        cx.place_after_write(v, dest).fields.len() == dest.fields.len(),
        forall|i: int|
            0 <= i < dest.fields.len() && !(dest.layout.variants matches Variants::Multiple {
                tag_field,
                ..
            } && i == tag_field) ==> cx.place_after_write(v, dest).fields[i] == dest.fields[i],
{
}

/// A value of a type without variants cannot be read: every read fails, and
/// names the index that the layout carries.
pub proof fn lemma_read_of_empty_type_fails(cx: InterpCx, op: Place)
    requires
        op.layout.wf(cx.pointer_size),
        op.layout.variant_count() == 0,
    ensures
        op.layout.variants matches Variants::Single { index } && cx.read_discriminant_spec(op)
            == Err::<VariantIdx, InterpError>(InterpError::UninhabitedVariantRead(index)),
{
}

} // verus!
