//! Composed record layouts.
//!
//! A [`DynamicTypeLayout`] is an ordered list of named fields, each
//! backed by a [`StaticTypeLayout`] descriptor.  Building one packs
//! the fields into a byte layout: each field's offset is the running
//! cursor rounded up to the field's alignment, and the total size is
//! the end of the last field rounded up to the widest field's
//! alignment (tail padding).  Field names must be unique; a repeated
//! name is a construction error reported before any instance can
//! exist.

use vstd::prelude::*;
use std::sync::Arc;
use ahash::AHashMap;
use ahash::RandomState;
use crate::errors::DynamicTypeError;
use crate::index_map::{string_map_entries, string_map_get, string_map_insert, string_map_new};
use crate::layouts::StaticTypeLayout;
use crate::tags::{lemma_tag_bounds, spec_tag_align, spec_tag_name, spec_tag_needs_drop,
    spec_tag_size, TypeTag};
use crate::values::{spec_default_value, Value};

verus! {

/// The smallest value `>= off` that is a multiple of `align`.
pub open spec fn spec_round_up(off: int, align: int) -> int {
    if off % align == 0 {
        off
    } else {
        off + align - (off % align)
    }
}

/// Rounding up to a positive alignment moves the cursor less than
/// one alignment unit forward and lands on a multiple of it.
pub proof fn lemma_round_up(off: int, align: int)
    requires
        off >= 0,
        align >= 1,
    ensures
        off <= spec_round_up(off, align) < off + align,
        spec_round_up(off, align) % align == 0,
{
    let r = off % align;
    vstd::arithmetic::div_mod::lemma_mod_bound(off, align);
    if r != 0 {
        let q = off / align;
        vstd::arithmetic::div_mod::lemma_fundamental_div_mod(off, align);
        assert((q + 1) * align + 0 == off + align - r) by (nonlinear_arith)
            requires
                off == align * q + (off % align),
                r == off % align,
        ;
        vstd::arithmetic::div_mod::lemma_fundamental_div_mod_converse_mod(
            off + align - r,
            align,
            q + 1,
            0,
        );
    }
}

/// The identity tag of one field entry.
pub open spec fn spec_entry_tag(p: (String, Arc<StaticTypeLayout>)) -> TypeTag {
    (*p.1).type_tag
}

/// The tags of an ordered field list.
pub open spec fn spec_field_tag_seq(fields: Seq<(String, Arc<StaticTypeLayout>)>) -> Seq<TypeTag> {
    fields.map_values(|p: (String, Arc<StaticTypeLayout>)| spec_entry_tag(p))
}

/// The end of the last field (before tail padding) of a layout that
/// packs the tagged fields in order; `0` for an empty list.
pub open spec fn spec_layout_end(tags: Seq<TypeTag>) -> int
    decreases tags.len(),
{
    if tags.len() == 0 {
        0
    } else {
        spec_round_up(spec_layout_end(tags.drop_last()), spec_tag_align(tags.last()) as int)
            + spec_tag_size(tags.last())
    }
}

/// The byte offset of field `i` in a layout that packs the tagged
/// fields in order: the end of the fields before it, rounded up to
/// its alignment.
pub open spec fn spec_field_offset(tags: Seq<TypeTag>, i: int) -> int {
    spec_round_up(spec_layout_end(tags.take(i)), spec_tag_align(tags[i]) as int)
}

/// The widest field alignment of the tagged fields; `1` for an empty
/// list.
pub open spec fn spec_max_align(tags: Seq<TypeTag>) -> int
    decreases tags.len(),
{
    if tags.len() == 0 {
        1
    } else {
        let m = spec_max_align(tags.drop_last());
        let a = spec_tag_align(tags.last()) as int;
        if a > m {
            a
        } else {
            m
        }
    }
}

/// The total size of a layout packing the tagged fields: the end of
/// the last field padded to the widest alignment, or `0` with no
/// fields.
pub open spec fn spec_total_size(tags: Seq<TypeTag>) -> int {
    if tags.len() == 0 {
        0
    } else {
        spec_round_up(spec_layout_end(tags), spec_max_align(tags))
    }
}

/// A layout's unpadded end is never negative.
pub proof fn lemma_layout_end_nonneg(tags: Seq<TypeTag>)
    ensures
        spec_layout_end(tags) >= 0,
    decreases tags.len(),
{
    if tags.len() > 0 {
        lemma_layout_end_nonneg(tags.drop_last());
        lemma_tag_bounds(tags.last());
        lemma_round_up(
            spec_layout_end(tags.drop_last()),
            spec_tag_align(tags.last()) as int,
        );
    }
}

/// Packing one more field moves the unpadded end forward by the
/// rounding gap plus the field's size.
pub proof fn lemma_layout_end_step(tags: Seq<TypeTag>, i: int)
    requires
        0 <= i < tags.len(),
    ensures
        spec_layout_end(tags.take(i + 1)) == spec_round_up(
            spec_layout_end(tags.take(i)),
            spec_tag_align(tags[i]) as int,
        ) + spec_tag_size(tags[i]),
{
    let pre = tags.take(i + 1);
    assert(pre.drop_last() =~= tags.take(i));
    assert(pre.last() == tags[i]);
}

/// The unpadded end of a prefix never exceeds the end of the whole
/// layout.
pub proof fn lemma_layout_end_prefix_le(tags: Seq<TypeTag>, i: int)
    requires
        0 <= i <= tags.len(),
    ensures
        spec_layout_end(tags.take(i)) <= spec_layout_end(tags),
    decreases tags.len() - i,
{
    if i == tags.len() {
        assert(tags.take(i) =~= tags);
    } else {
        lemma_layout_end_step(tags, i);
        lemma_layout_end_nonneg(tags.take(i));
        lemma_tag_bounds(tags[i]);
        lemma_round_up(spec_layout_end(tags.take(i)), spec_tag_align(tags[i]) as int);
        lemma_layout_end_prefix_le(tags, i + 1);
    }
}

/// The widest alignment is always one of 1, 2, 4 or 8.
pub proof fn lemma_max_align_bounds(tags: Seq<TypeTag>)
    ensures
        1 <= spec_max_align(tags) <= 8,
    decreases tags.len(),
{
    if tags.len() > 0 {
        lemma_max_align_bounds(tags.drop_last());
        lemma_tag_bounds(tags.last());
    }
}

/// Growing the field list by one updates the widest alignment to the
/// maximum of the old value and the new field's alignment.
pub proof fn lemma_max_align_step(tags: Seq<TypeTag>, i: int)
    requires
        0 <= i < tags.len(),
    ensures
        spec_max_align(tags.take(i + 1)) == (if spec_tag_align(tags[i]) as int > spec_max_align(
            tags.take(i),
        ) {
            spec_tag_align(tags[i]) as int
        } else {
            spec_max_align(tags.take(i))
        }),
{
    let pre = tags.take(i + 1);
    assert(pre.drop_last() =~= tags.take(i));
    assert(pre.last() == tags[i]);
}

/// A composed record layout: an ordered list of named, typed fields
/// with computed byte offsets, a name-to-position index, and a total
/// size.
///
/// A layout is built once by [`DynamicTypeLayout::try_new`] (or
/// [`DynamicTypeLayout::new`]) and never mutated afterwards; every
/// operation assumes the well-formedness that construction
/// establishes.
#[derive(Debug)]
pub struct DynamicTypeLayout {
    /// The layout's registered name.
    pub name: String,
    /// Each field's name, in declaration order.
    pub field_names: Vec<String>,
    /// Each field's type identity.
    pub field_types: Vec<TypeTag>,
    /// Each field's byte offset.
    pub field_offsets: Vec<usize>,
    /// Each field's size in bytes.
    pub field_sizes: Vec<usize>,
    /// Each field's default value.
    pub field_defaults: Vec<Value>,
    /// Whether each field's values need teardown (the engine's
    /// stand-in for a per-field destructor callback).
    pub field_needs_drop: Vec<bool>,
    /// Each field's type display name.
    pub field_type_names: Vec<String>,
    /// Field name to field position.
    pub name_to_index: AHashMap<String, usize, RandomState>,
    /// Total size of the layout in bytes, tail padding included.
    pub total_size: usize,
}

/// The name index agrees with a field-name list: every field's name
/// maps to its position, and the index holds nothing else.
pub open spec fn spec_name_map_ok(m: Map<Seq<char>, usize>, names: Seq<String>) -> bool {
    &&& forall|i: int|
        0 <= i < names.len() ==> m.contains_pair((#[trigger] names[i])@, i as usize)
    &&& forall|k: Seq<char>|
        #[trigger] m.dom().contains(k) ==> exists|i: int|
            0 <= i < names.len() && (#[trigger] names[i])@ == k
}

impl DynamicTypeLayout {
    /// Number of fields.
    pub open spec fn spec_field_count(&self) -> int {
        self.field_types@.len() as int
    }

    /// A schema is well formed when all its field tables line up,
    /// offsets and total size follow the packing rules, field names
    /// are unique and indexed correctly, and every field's derived
    /// data (size, default, teardown flag, type name) agrees with its
    /// tag.
    pub open spec fn wf(&self) -> bool {
        let n = self.spec_field_count();
        let tags = self.field_types@;
        &&& self.field_names@.len() == n
        &&& self.field_offsets@.len() == n
        &&& self.field_sizes@.len() == n
        &&& self.field_defaults@.len() == n
        &&& self.field_needs_drop@.len() == n
        &&& self.field_type_names@.len() == n
        &&& forall|i: int|
            0 <= i < n ==> (#[trigger] self.field_sizes@[i]) as int == spec_tag_size(tags[i]) as int
        &&& forall|i: int|
            0 <= i < n ==> (#[trigger] self.field_offsets@[i]) as int == spec_field_offset(tags, i)
        &&& forall|i: int|
            0 <= i < n ==> (#[trigger] self.field_defaults@[i])@ == spec_default_value(tags[i])
        &&& forall|i: int|
            0 <= i < n ==> (#[trigger] self.field_needs_drop@[i]) == spec_tag_needs_drop(tags[i])
        &&& forall|i: int|
            0 <= i < n ==> (#[trigger] self.field_type_names@[i])@ == spec_tag_name(tags[i])
        &&& forall|i: int, j: int|
            0 <= i < j < n ==> (#[trigger] self.field_names@[i])@ != (#[trigger] self.field_names@[j])@
        &&& spec_name_map_ok(string_map_entries(self.name_to_index), self.field_names@)
        &&& self.total_size as int == spec_total_size(tags)
    }

    /// Builds a layout from an ordered field list, packing offsets in
    /// declaration order.  Fails, before any instance can be created,
    /// exactly when two fields share a name.
    pub fn try_new(name: String, fields: &Vec<(String, Arc<StaticTypeLayout>)>) -> (r: Result<
        Self,
        DynamicTypeError,
    >)
        requires
            forall|i: int| 0 <= i < fields@.len() ==> (*(#[trigger] fields@[i]).1).wf(),
            spec_layout_end(spec_field_tag_seq(fields@)) + 7 <= usize::MAX,
        ensures
            (r matches Err(_)) <==> (exists|i: int, j: int|
                0 <= i < j < fields@.len() && (#[trigger] fields@[i]).0@ == (
                #[trigger] fields@[j]).0@),
            r matches Err(e) ==> (e matches DynamicTypeError::DuplicateFieldName { name: d }
                && exists|i: int, j: int|
                    0 <= i < j < fields@.len() && (#[trigger] fields@[i]).0@ == (
                    #[trigger] fields@[j]).0@ && fields@[j].0@ == d@),
            r matches Ok(s) ==> {
                &&& s.wf()
                &&& s.name@ == name@
                &&& s.field_types@ == spec_field_tag_seq(fields@)
                &&& s.field_names@.len() == fields@.len()
                &&& forall|i: int|
                    0 <= i < fields@.len() ==> (#[trigger] s.field_names@[i])@ == fields@[i].0@
                &&& s.total_size as int == spec_total_size(spec_field_tag_seq(fields@))
            },
    {
        let ghost tags = spec_field_tag_seq(fields@);
        let n = fields.len();
        let mut field_names: Vec<String> = Vec::with_capacity(n);
        let mut field_types: Vec<TypeTag> = Vec::with_capacity(n);
        let mut field_offsets: Vec<usize> = Vec::with_capacity(n);
        let mut field_sizes: Vec<usize> = Vec::with_capacity(n);
        let mut field_defaults: Vec<Value> = Vec::with_capacity(n);
        let mut field_needs_drop: Vec<bool> = Vec::with_capacity(n);
        let mut field_type_names: Vec<String> = Vec::with_capacity(n);
        let mut name_to_index = string_map_new();
        let mut offset: usize = 0;
        let mut max_align: usize = 1;
        let mut idx: usize = 0;
        while idx < n
            invariant
                n == fields@.len(),
                idx <= n,
                forall|i: int| 0 <= i < fields@.len() ==> (*(#[trigger] fields@[i]).1).wf(),
                spec_layout_end(tags) + 7 <= usize::MAX,
                tags == spec_field_tag_seq(fields@),
                field_names@.len() == idx as int,
                field_types@.len() == idx as int,
                field_offsets@.len() == idx as int,
                field_sizes@.len() == idx as int,
                field_defaults@.len() == idx as int,
                field_needs_drop@.len() == idx as int,
                field_type_names@.len() == idx as int,
                forall|i: int|
                    0 <= i < idx as int ==> (#[trigger] field_names@[i])@ == fields@[i].0@,
                forall|i: int| 0 <= i < idx as int ==> #[trigger] field_types@[i] == tags[i],
                forall|i: int|
                    0 <= i < idx as int ==> (#[trigger] field_offsets@[i]) as int
                        == spec_field_offset(tags, i),
                forall|i: int|
                    0 <= i < idx as int ==> (#[trigger] field_sizes@[i]) as int == spec_tag_size(
                        tags[i],
                    ) as int,
                forall|i: int|
                    0 <= i < idx as int ==> (#[trigger] field_defaults@[i])@ == spec_default_value(
                        tags[i],
                    ),
                forall|i: int|
                    0 <= i < idx as int ==> (#[trigger] field_needs_drop@[i])
                        == spec_tag_needs_drop(tags[i]),
                forall|i: int|
                    0 <= i < idx as int ==> (#[trigger] field_type_names@[i])@ == spec_tag_name(
                        tags[i],
                    ),
                forall|i: int, j: int|
                    0 <= i < j < idx as int ==> (#[trigger] field_names@[i])@ != (
                    #[trigger] field_names@[j])@,
                spec_name_map_ok(string_map_entries(name_to_index), field_names@),
                offset as int == spec_layout_end(tags.take(idx as int)),
                max_align as int == spec_max_align(tags.take(idx as int)),
                1 <= max_align <= 8,
            decreases n - idx,
        {
            let pair = &fields[idx];
            let fname: &String = &pair.0;
            let lay: &StaticTypeLayout = &*pair.1;
            proof {
                assert(spec_entry_tag(fields@[idx as int]) == tags[idx as int]);
                assert((*fields@[idx as int].1).wf());
            }
            let dup = string_map_get(&name_to_index, fname.as_str());
            if dup.is_some() {
                proof {
                    let k = fname@;
                    assert(string_map_entries(name_to_index).dom().contains(k));
                    let prev = choose|i: int|
                        0 <= i < field_names@.len() && (#[trigger] field_names@[i])@ == k;
                    assert(0 <= prev < idx as int);
                    assert(fields@[prev].0@ == k);
                    assert(fields@[idx as int].0@ == k);
                    assert(exists|i: int, j: int|
                        0 <= i < j < fields@.len() && (#[trigger] fields@[i]).0@ == (
                        #[trigger] fields@[j]).0@ && fields@[j].0@ == k);
                }
                return Err(DynamicTypeError::DuplicateFieldName { name: fname.clone() });
            }
            let ghost names_before = field_names@;
            proof {
                let eb = string_map_entries(name_to_index);
                assert(!eb.dom().contains(fname@));
                assert forall|i: int| 0 <= i < names_before.len() implies (
                #[trigger] names_before[i])@ != fname@ by {
                    assert(eb.contains_pair(names_before[i]@, i as usize));
                }
            }
            proof {
                lemma_layout_end_nonneg(tags.take(idx as int));
                lemma_tag_bounds(tags[idx as int]);
                lemma_round_up(
                    spec_layout_end(tags.take(idx as int)),
                    spec_tag_align(tags[idx as int]) as int,
                );
                lemma_layout_end_step(tags, idx as int);
                lemma_layout_end_prefix_le(tags, idx as int + 1);
                lemma_max_align_step(tags, idx as int);
            }
            let align = lay.align;
            let rem = offset % align;
            if rem != 0 {
                offset = offset + (align - rem);
            }
            field_offsets.push(offset);
            offset = offset + lay.size;
            field_types.push(lay.type_tag);
            field_sizes.push(lay.size);
            field_defaults.push(lay.default.clone());
            field_needs_drop.push(lay.drop_flag);
            field_type_names.push(lay.name.clone());
            if align > max_align {
                max_align = align;
            }
            let ghost entries_before = string_map_entries(name_to_index);
            string_map_insert(&mut name_to_index, fname.clone(), idx);
            field_names.push(fname.clone());
            proof {
                let m = string_map_entries(name_to_index);
                assert(m == entries_before.insert(fname@, idx));
                assert(field_names@.len() == names_before.len() + 1);
                assert(field_names@[idx as int]@ == fname@);
                assert(forall|i: int|
                    0 <= i < names_before.len() ==> #[trigger] field_names@[i]
                        == names_before[i]);
                assert forall|k: Seq<char>| #[trigger] m.dom().contains(k) implies exists|i: int|
                    0 <= i < field_names@.len() && (#[trigger] field_names@[i])@ == k by {
                    if k == fname@ {
                        assert(field_names@[idx as int]@ == k);
                    } else {
                        assert(entries_before.dom().contains(k));
                        let i0 = choose|i: int|
                            0 <= i < names_before.len() && (#[trigger] names_before[i])@ == k;
                        assert(field_names@[i0]@ == k);
                    }
                }
                assert forall|i: int| 0 <= i < field_names@.len() implies m.contains_pair(
                    (#[trigger] field_names@[i])@,
                    i as usize,
                ) by {
                    if i < idx as int {
                        assert(entries_before.contains_pair(names_before[i]@, i as usize));
                        assert(names_before[i]@ != fname@);
                    } else {
                        assert(field_names@[i]@ == fname@);
                    }
                }
            }
            idx = idx + 1;
        }
        proof {
            assert(tags.take(n as int) =~= tags);
            assert(field_types@ =~= tags);
            assert forall|i: int, j: int| 0 <= i < j < fields@.len() implies (
            #[trigger] fields@[i]).0@ != (#[trigger] fields@[j]).0@ by {
                assert(field_names@[i]@ == fields@[i].0@);
                assert(field_names@[j]@ == fields@[j].0@);
            }
        }
        let total_size: usize = if n == 0 {
            0
        } else {
            proof {
                lemma_layout_end_nonneg(tags);
                lemma_round_up(spec_layout_end(tags), max_align as int);
            }
            let rem = offset % max_align;
            if rem != 0 {
                offset + (max_align - rem)
            } else {
                offset
            }
        };
        Ok(
            DynamicTypeLayout {
                name,
                field_names,
                field_types,
                field_offsets,
                field_sizes,
                field_defaults,
                field_needs_drop,
                field_type_names,
                name_to_index,
                total_size,
            },
        )
    }

    /// Builds a layout from a field list already known to have unique
    /// names.  Construction with a repeated field name is a fatal
    /// programming error, which this entry point rules out up front;
    /// [`DynamicTypeLayout::try_new`] reports it dynamically instead.
    pub fn new(name: String, fields: &Vec<(String, Arc<StaticTypeLayout>)>) -> (s: Self)
        requires
            forall|i: int| 0 <= i < fields@.len() ==> (*(#[trigger] fields@[i]).1).wf(),
            spec_layout_end(spec_field_tag_seq(fields@)) + 7 <= usize::MAX,
            forall|i: int, j: int|
                0 <= i < j < fields@.len() ==> (#[trigger] fields@[i]).0@ != (
                #[trigger] fields@[j]).0@,
        ensures
            s.wf(),
            s.name@ == name@,
            s.field_types@ == spec_field_tag_seq(fields@),
            s.field_names@.len() == fields@.len(),
            forall|i: int|
                0 <= i < fields@.len() ==> (#[trigger] s.field_names@[i])@ == fields@[i].0@,
            s.total_size as int == spec_total_size(spec_field_tag_seq(fields@)),
    {
        match Self::try_new(name, fields) {
            Ok(s) => s,
            Err(_) => vstd::pervasive::unreached(),
        }
    }

    /// Number of fields.
    pub fn field_count(&self) -> (n: usize)
        ensures
            n as int == self.spec_field_count(),
    {
        self.field_types.len()
    }

    /// The position of the named field, if the schema has one.
    pub fn index_of(&self, name: &str) -> (r: Option<usize>)
        requires
            self.wf(),
        ensures
            match r {
                Option::Some(i) => {
                    &&& (i as int) < self.spec_field_count()
                    &&& self.field_names@[i as int]@ == name@
                },
                Option::None => forall|i: int|
                    0 <= i < self.spec_field_count() ==> (#[trigger] self.field_names@[i])@
                        != name@,
            },
    {
        let r = string_map_get(&self.name_to_index, name);
        proof {
            let m = string_map_entries(self.name_to_index);
            if m.dom().contains(name@) {
                assert(exists|i: int|
                    0 <= i < self.field_names@.len() && (#[trigger] self.field_names@[i])@
                        == name@);
                let i = choose|i: int|
                    0 <= i < self.field_names@.len() && (#[trigger] self.field_names@[i])@
                        == name@;
                assert(m.contains_pair(self.field_names@[i]@, i as usize));
                assert(m[name@] == i as usize);
                assert(self.field_names@.len() == vstd::std_specs::vec::spec_vec_len(
                    &self.field_names,
                ));
                assert((i as usize) as int == i);
                assert(self.field_names@[m[name@] as int]@ == name@);
            } else {
                assert forall|i: int| 0 <= i < self.spec_field_count() implies (
                #[trigger] self.field_names@[i])@ != name@ by {
                    assert(m.contains_pair(self.field_names@[i]@, i as usize));
                }
            }
        }
        r
    }

    /// The byte offset of the field at `index`.
    pub fn offset_of(&self, index: usize) -> (o: usize)
        requires
            self.wf(),
            (index as int) < self.spec_field_count(),
        ensures
            o as int == spec_field_offset(self.field_types@, index as int),
    {
        self.field_offsets[index]
    }

    /// The size in bytes of the field at `index`.
    pub fn size_of(&self, index: usize) -> (s: usize)
        requires
            self.wf(),
            (index as int) < self.spec_field_count(),
        ensures
            s as int == spec_tag_size(self.field_types@[index as int]) as int,
    {
        self.field_sizes[index]
    }

    /// The declared type identity of the field at `index`.
    pub fn type_identity_of(&self, index: usize) -> (t: TypeTag)
        requires
            self.wf(),
            (index as int) < self.spec_field_count(),
        ensures
            t == self.field_types@[index as int],
    {
        self.field_types[index]
    }
}

/// In a well-formed schema every field offset is a multiple of its
/// field's alignment, consecutive fields do not overlap, and the
/// total size covers every field.
pub proof fn lemma_schema_layout(s: &DynamicTypeLayout)
    requires
        s.wf(),
    ensures
        s.spec_field_count() > 0 ==> s.field_offsets@[0] == 0,
        forall|i: int|
            0 <= i < s.spec_field_count() ==> (#[trigger] s.field_offsets@[i]) as int
                % (spec_tag_align(s.field_types@[i]) as int) == 0,
        forall|i: int|
            0 <= i && i + 1 < s.spec_field_count() ==> (#[trigger] s.field_offsets@[i + 1]) as int
                >= s.field_offsets@[i] as int + s.field_sizes@[i] as int,
        forall|i: int|
            0 <= i < s.spec_field_count() ==> (#[trigger] s.field_offsets@[i]) as int
                + s.field_sizes@[i] as int <= s.total_size as int,
{
    let tags = s.field_types@;
    let n = s.spec_field_count();
    assert forall|i: int| 0 <= i < n implies (#[trigger] s.field_offsets@[i]) as int
        % (spec_tag_align(tags[i]) as int) == 0 by {
        lemma_layout_end_nonneg(tags.take(i));
        lemma_tag_bounds(tags[i]);
        lemma_round_up(spec_layout_end(tags.take(i)), spec_tag_align(tags[i]) as int);
    }
    assert forall|i: int| 0 <= i && i + 1 < n implies (#[trigger] s.field_offsets@[i + 1]) as int
        >= s.field_offsets@[i] as int + s.field_sizes@[i] as int by {
        lemma_layout_end_nonneg(tags.take(i));
        lemma_tag_bounds(tags[i]);
        lemma_tag_bounds(tags[i + 1]);
        lemma_round_up(spec_layout_end(tags.take(i)), spec_tag_align(tags[i]) as int);
        lemma_layout_end_step(tags, i);
        lemma_layout_end_nonneg(tags.take(i + 1));
        lemma_round_up(spec_layout_end(tags.take(i + 1)), spec_tag_align(tags[i + 1]) as int);
    }
    assert forall|i: int| 0 <= i < n implies (#[trigger] s.field_offsets@[i]) as int
        + s.field_sizes@[i] as int <= s.total_size as int by {
        lemma_layout_end_nonneg(tags.take(i));
        lemma_tag_bounds(tags[i]);
        lemma_round_up(spec_layout_end(tags.take(i)), spec_tag_align(tags[i]) as int);
        lemma_layout_end_step(tags, i);
        lemma_layout_end_prefix_le(tags, i + 1);
        lemma_layout_end_nonneg(tags);
        lemma_max_align_bounds(tags);
        lemma_round_up(spec_layout_end(tags), spec_max_align(tags));
    }
}

} // verus!
