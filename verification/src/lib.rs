//! Reading and writing the discriminant of tagged-union values held in typed,
//! abstractly interpreted memory.
//!
//! Three representations of "which variant" meet here: the *variant index*
//! (position in declaration order), the *discriminant* (the value the
//! programmer sees) and the *tag* (the bits that memory holds). The tag is
//! either the truncated discriminant, or an offset into a niche of otherwise
//! unused bit patterns of some field.
//!
//! Beside the codec stand two smaller parts of the same compiler: the check
//! that the weak language items a crate needs are defined, and the
//! description of one target.

pub mod discriminant;
pub mod error;
pub mod layout;
pub mod lemmas;
pub mod memory;
pub mod scalar;
pub mod target;
pub mod weak_lang_items;
pub mod width;
