//! Per-type layout descriptors.
//!
//! A [`StaticTypeLayout`] records everything the engine needs to know
//! about one field type: its identity tag, size, alignment, default
//! value, whether its values need teardown, and a display name.  One
//! descriptor per type, computed by [`StaticTypeLayout::of`]; the
//! catalog shares descriptors by reference.

use vstd::prelude::*;
use crate::tags::{
    spec_tag_align, spec_tag_name, spec_tag_needs_drop, spec_tag_size, tag_align, tag_name,
    tag_needs_drop, tag_size, TypeTag,
};
use crate::values::{default_value, spec_default_value, Value};

verus! {

/// The layout descriptor of one field type.
///
/// Descriptors are immutable once created: every accessor of the
/// engine assumes [`StaticTypeLayout::wf`], which
/// [`StaticTypeLayout::of`] establishes, and nothing afterwards may
/// alter the fields.
#[derive(Debug)]
pub struct StaticTypeLayout {
    /// The identity of the described type.
    pub type_tag: TypeTag,
    /// Size of a value in bytes.
    pub size: usize,
    /// Alignment of a value in bytes; always a power of two.
    pub align: usize,
    /// The default value a fresh field of this type holds.
    pub default: Value,
    /// Whether values own resources whose teardown must run exactly
    /// once (the engine's stand-in for a destructor callback).
    pub drop_flag: bool,
    /// Display name of the type.
    pub name: String,
}

impl StaticTypeLayout {
    /// A descriptor is well formed when every field agrees with what
    /// the tag prescribes.
    pub open spec fn wf(&self) -> bool {
        &&& self.size == spec_tag_size(self.type_tag)
        &&& self.align == spec_tag_align(self.type_tag)
        &&& self.default@ == spec_default_value(self.type_tag)
        &&& self.drop_flag == spec_tag_needs_drop(self.type_tag)
        &&& self.name@ == spec_tag_name(self.type_tag)
    }

    /// Computes the descriptor of the tagged type: its size and
    /// alignment, its default value, whether its values need
    /// teardown, and its display name.
    pub fn of(t: TypeTag) -> (r: Self)
        ensures
            r.wf(),
            r.type_tag == t,
    {
        StaticTypeLayout {
            type_tag: t,
            size: tag_size(t),
            align: tag_align(t),
            default: default_value(t),
            drop_flag: tag_needs_drop(t),
            name: tag_name(t),
        }
    }
}

impl Clone for StaticTypeLayout {
    /// Cloning a descriptor preserves the described type and
    /// well-formedness.
    fn clone(&self) -> (r: Self)
        ensures
            r.type_tag == self.type_tag,
            self.wf() ==> r.wf(),
    {
        StaticTypeLayout {
            type_tag: self.type_tag,
            size: self.size,
            align: self.align,
            default: self.default.clone(),
            drop_flag: self.drop_flag,
            name: self.name.clone(),
        }
    }
}

} // verus!
