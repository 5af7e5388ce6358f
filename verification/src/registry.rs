//! The type catalog.
//!
//! A [`TypeRegistry`] is the process's shared store of layout
//! information: one [`StaticTypeLayout`] descriptor per distinct type
//! identity, and one [`DynamicTypeLayout`] schema per registered
//! name.  Descriptors and schemas are immutable once inserted and are
//! handed out by shared reference.  Registration mutates the catalog
//! and therefore takes it exclusively; an embedding program that
//! shares one catalog across threads puts it behind its own
//! reader/writer lock, with lookups under the read side and
//! registration under the write side.

use vstd::prelude::*;
use std::sync::Arc;
use ahash::AHashMap;
use ahash::RandomState;
use vstd::string::StringExecFns;
use crate::errors::DynamicTypeError;
use crate::index_map::{string_map_entries, string_map_get, string_map_insert, string_map_new};
use crate::instance::DynamicStruct;
use crate::layouts::StaticTypeLayout;
use crate::schema::DynamicTypeLayout;
use crate::tags::{Holder, ScalarKind, TypeTag, WrapKind};
use crate::values::{arc_dup, spec_default_value};

verus! {

/// The catalog: descriptors by type identity, schemas by name.
pub struct TypeRegistry {
    /// One descriptor per distinct registered type identity.
    pub static_types: Vec<Arc<StaticTypeLayout>>,
    /// The registered schemas.
    pub dynamic_types: Vec<Arc<DynamicTypeLayout>>,
    /// Schema name to slot in `dynamic_types`.
    pub dynamic_index: AHashMap<String, usize, RandomState>,
}

impl TypeRegistry {
    /// Whether a descriptor for the tagged type is registered.
    pub open spec fn spec_has_static(&self, t: TypeTag) -> bool {
        exists|i: int|
            0 <= i < self.static_types@.len() && (*(#[trigger] self.static_types@[i])).type_tag
                == t
    }

    /// Whether a schema is registered under the name.
    pub open spec fn spec_has_schema(&self, n: Seq<char>) -> bool {
        string_map_entries(self.dynamic_index).dom().contains(n)
    }

    /// The slot of the schema registered under the name.
    pub open spec fn spec_schema_index(&self, n: Seq<char>) -> int {
        string_map_entries(self.dynamic_index)[n] as int
    }

    /// The schema registered under the name.
    pub open spec fn spec_schema_at(&self, n: Seq<char>) -> DynamicTypeLayout {
        *self.dynamic_types@[self.spec_schema_index(n)]
    }

    /// The catalog is well formed when every stored descriptor and
    /// schema is, type identities are registered at most once, and
    /// the name index lists exactly the stored schemas.
    pub open spec fn wf(&self) -> bool {
        &&& forall|i: int|
            0 <= i < self.static_types@.len() ==> (*(#[trigger] self.static_types@[i])).wf()
        &&& forall|i: int, j: int|
            0 <= i < j < self.static_types@.len() ==> (*(#[trigger] self.static_types@[i])).type_tag
                != (*(#[trigger] self.static_types@[j])).type_tag
        &&& forall|i: int|
            0 <= i < self.dynamic_types@.len() ==> (*(#[trigger] self.dynamic_types@[i])).wf()
        &&& forall|i: int, j: int|
            0 <= i < j < self.dynamic_types@.len() ==> (*(#[trigger] self.dynamic_types@[i])).name@
                != (*(#[trigger] self.dynamic_types@[j])).name@
        &&& forall|i: int|
            0 <= i < self.dynamic_types@.len() ==> string_map_entries(
                self.dynamic_index,
            ).contains_pair((*(#[trigger] self.dynamic_types@[i])).name@, i as usize)
        &&& forall|k: Seq<char>|
            #[trigger] string_map_entries(self.dynamic_index).dom().contains(k) ==> exists|i: int|
                0 <= i < self.dynamic_types@.len() && (*(#[trigger] self.dynamic_types@[i])).name@
                    == k
    }
}

/// Registering a schema makes it visible under its name and leaves
/// every other name's entry exactly as it was.
pub open spec fn spec_registered(
    pre: TypeRegistry,
    post: TypeRegistry,
    layout: DynamicTypeLayout,
) -> bool {
    &&& post.spec_has_schema(layout.name@)
    &&& post.spec_schema_at(layout.name@) == layout
    &&& forall|n: Seq<char>|
        n != layout.name@ ==> (#[trigger] post.spec_has_schema(n) <==> pre.spec_has_schema(n))
    &&& forall|n: Seq<char>|
        n != layout.name@ && pre.spec_has_schema(n) ==> #[trigger] post.spec_schema_at(n)
            == pre.spec_schema_at(n)
}

impl Default for TypeRegistry {
    /// A fresh catalog holds nothing.
    fn default() -> (r: Self)
        ensures
            r.wf(),
            r.static_types@.len() == 0,
            r.dynamic_types@.len() == 0,
            forall|t: TypeTag| !r.spec_has_static(t),
            forall|n: Seq<char>| !r.spec_has_schema(n),
    {
        TypeRegistry {
            static_types: Vec::new(),
            dynamic_types: Vec::new(),
            dynamic_index: string_map_new(),
        }
    }
}

impl TypeRegistry {
    /// Registers the descriptor of the tagged type.  Idempotent: a
    /// type already registered keeps its single descriptor.
    pub fn add(&mut self, t: TypeTag)
        requires
            old(self).wf(),
        ensures
            final(self).wf(),
            forall|t2: TypeTag|
                #[trigger] final(self).spec_has_static(t2) <==> (old(self).spec_has_static(t2) || t2
                    == t),
            final(self).dynamic_types == old(self).dynamic_types,
            final(self).dynamic_index == old(self).dynamic_index,
    {
        let n = self.static_types.len();
        let mut i: usize = 0;
        while i < n
            invariant
                old(self).wf(),
                *self == *old(self),
                n == self.static_types@.len(),
                i <= n,
                forall|j: int|
                    0 <= j < i as int ==> (*(#[trigger] self.static_types@[j])).type_tag != t,
            decreases n - i,
        {
            if self.static_types[i].type_tag == t {
                proof {
                    assert(self.spec_has_static(t));
                }
                return ;
            }
            i = i + 1;
        }
        let lay = Arc::new(StaticTypeLayout::of(t));
        self.static_types.push(lay);
        proof {
            assert((*self.static_types@[self.static_types@.len() - 1]).type_tag == t);
            assert(self.spec_has_static(t));
            assert forall|t2: TypeTag| old(self).spec_has_static(t2) implies self.spec_has_static(
                t2,
            ) by {
                let k = choose|k: int|
                    0 <= k < old(self).static_types@.len() && (*(#[trigger] old(
                        self,
                    ).static_types@[k])).type_tag == t2;
                assert((*self.static_types@[k]).type_tag == t2);
            }
            assert forall|a: int, b: int|
                0 <= a < b < self.static_types@.len() implies (*(
            #[trigger] self.static_types@[a])).type_tag != (*(
            #[trigger] self.static_types@[b])).type_tag by {
                if b == self.static_types@.len() - 1 {
                    assert((*old(self).static_types@[a]).type_tag != t);
                } else {
                    assert((*old(self).static_types@[a]).type_tag != (*old(
                        self,
                    ).static_types@[b]).type_tag);
                }
            }
            assert forall|a: int| 0 <= a < self.static_types@.len() implies (*(
            #[trigger] self.static_types@[a])).wf() by {
                if a < self.static_types@.len() - 1 {
                    assert((*old(self).static_types@[a]).wf());
                }
            }
            assert(self.dynamic_types == old(self).dynamic_types);
            assert(self.dynamic_index == old(self).dynamic_index);
            assert(self.wf());
        }
    }

    /// Registers the descriptor of the tagged type and of its derived
    /// family: its optional, shared and lock-guarded wrapped forms,
    /// and the vector, shared-vector and lock-guarded-vector
    /// collections of each, sparing callers from registering every
    /// container form individually.
    pub fn add_all(&mut self, base: ScalarKind)
        requires
            old(self).wf(),
        ensures
            final(self).wf(),
            forall|t: TypeTag|
                #[trigger] final(self).spec_has_static(t) <==> (old(self).spec_has_static(t)
                    || spec_family_member(base, t)),
            final(self).dynamic_types == old(self).dynamic_types,
            final(self).dynamic_index == old(self).dynamic_index,
    {
        self.add(TypeTag::Single(WrapKind::Plain, base));
        self.add(TypeTag::Many(Holder::Direct, WrapKind::Plain, base));
        self.add(TypeTag::Many(Holder::SharedH, WrapKind::Plain, base));
        self.add(TypeTag::Many(Holder::RwH, WrapKind::Plain, base));
        self.add(TypeTag::Many(Holder::MxH, WrapKind::Plain, base));
        self.add(TypeTag::OptMany(Holder::RwH, WrapKind::Plain, base));
        self.add(TypeTag::OptMany(Holder::MxH, WrapKind::Plain, base));
        self.add(TypeTag::Single(WrapKind::Opt, base));
        self.add(TypeTag::Many(Holder::Direct, WrapKind::Opt, base));
        self.add(TypeTag::Many(Holder::SharedH, WrapKind::Opt, base));
        self.add(TypeTag::Many(Holder::RwH, WrapKind::Opt, base));
        self.add(TypeTag::Many(Holder::MxH, WrapKind::Opt, base));
        self.add(TypeTag::OptMany(Holder::RwH, WrapKind::Opt, base));
        self.add(TypeTag::OptMany(Holder::MxH, WrapKind::Opt, base));
        self.add(TypeTag::Single(WrapKind::Shared, base));
        self.add(TypeTag::Many(Holder::Direct, WrapKind::Shared, base));
        self.add(TypeTag::Many(Holder::SharedH, WrapKind::Shared, base));
        self.add(TypeTag::Many(Holder::RwH, WrapKind::Shared, base));
        self.add(TypeTag::Many(Holder::MxH, WrapKind::Shared, base));
        self.add(TypeTag::OptMany(Holder::RwH, WrapKind::Shared, base));
        self.add(TypeTag::OptMany(Holder::MxH, WrapKind::Shared, base));
        self.add(TypeTag::Single(WrapKind::SharedRw, base));
        self.add(TypeTag::Many(Holder::Direct, WrapKind::SharedRw, base));
        self.add(TypeTag::Many(Holder::SharedH, WrapKind::SharedRw, base));
        self.add(TypeTag::Many(Holder::RwH, WrapKind::SharedRw, base));
        self.add(TypeTag::Many(Holder::MxH, WrapKind::SharedRw, base));
        self.add(TypeTag::OptMany(Holder::RwH, WrapKind::SharedRw, base));
        self.add(TypeTag::OptMany(Holder::MxH, WrapKind::SharedRw, base));
        self.add(TypeTag::Single(WrapKind::SharedMx, base));
        self.add(TypeTag::Many(Holder::Direct, WrapKind::SharedMx, base));
        self.add(TypeTag::Many(Holder::SharedH, WrapKind::SharedMx, base));
        self.add(TypeTag::Many(Holder::RwH, WrapKind::SharedMx, base));
        self.add(TypeTag::Many(Holder::MxH, WrapKind::SharedMx, base));
        self.add(TypeTag::OptMany(Holder::RwH, WrapKind::SharedMx, base));
        self.add(TypeTag::OptMany(Holder::MxH, WrapKind::SharedMx, base));
    }

    /// Registers a schema under its own name, replacing any schema
    /// previously registered under that name.
    pub fn add_dyn(&mut self, layout: DynamicTypeLayout)
        requires
            old(self).wf(),
            layout.wf(),
        ensures
            final(self).wf(),
            spec_registered(*old(self), *final(self), layout),
            final(self).static_types == old(self).static_types,
    {
        let nm = layout.name.clone();
        let existing = string_map_get(&self.dynamic_index, nm.as_str());
        match existing {
            Option::Some(i) => {
                proof {
                    let m = string_map_entries(self.dynamic_index);
                    assert(m.dom().contains(nm@));
                    assert(exists|j: int|
                        0 <= j < self.dynamic_types@.len() && (*(
                        #[trigger] self.dynamic_types@[j])).name@ == nm@);
                    let j = choose|j: int|
                        0 <= j < self.dynamic_types@.len() && (*(
                        #[trigger] self.dynamic_types@[j])).name@ == nm@;
                    assert(self.dynamic_types@.len() == vstd::std_specs::vec::spec_vec_len(
                        &self.dynamic_types,
                    ));
                    assert((j as usize) as int == j);
                    assert(m.contains_pair((*self.dynamic_types@[j]).name@, j as usize));
                    assert(i as int == j);
                    assert((*self.dynamic_types@[i as int]).name@ == nm@);
                }
                self.dynamic_types[i] = Arc::new(layout);
                proof {
                    assert((*self.dynamic_types@[i as int]) == layout);
                    assert(string_map_entries(self.dynamic_index).contains_pair(layout.name@, i));
                    assert forall|j: int| 0 <= j < self.dynamic_types@.len() implies
                        string_map_entries(self.dynamic_index).contains_pair(
                        (*(#[trigger] self.dynamic_types@[j])).name@,
                        j as usize,
                    ) by {
                        if j != i as int {
                            assert(string_map_entries(self.dynamic_index).contains_pair(
                                (*old(self).dynamic_types@[j]).name@,
                                j as usize,
                            ));
                        }
                    }
                    assert forall|k: Seq<char>| #[trigger] string_map_entries(
                        self.dynamic_index,
                    ).dom().contains(k) implies exists|j: int|
                        0 <= j < self.dynamic_types@.len() && (*(
                        #[trigger] self.dynamic_types@[j])).name@ == k by {
                        let j0 = choose|j: int|
                            0 <= j < old(self).dynamic_types@.len() && (*(#[trigger] old(
                            self,
                            ).dynamic_types@[j])).name@ == k;
                        if j0 == i as int {
                            assert((*self.dynamic_types@[i as int]).name@ == k);
                        } else {
                            assert((*self.dynamic_types@[j0]).name@ == k);
                        }
                    }
                    assert forall|k: int, l: int|
                        0 <= k < l < self.dynamic_types@.len() implies (*(
                    #[trigger] self.dynamic_types@[k])).name@ != (*(
                    #[trigger] self.dynamic_types@[l])).name@ by {
                        assert((*old(self).dynamic_types@[k]).name@ != (*old(
                            self,
                        ).dynamic_types@[l]).name@);
                    }
                }
            },
            Option::None => {
                let i = self.dynamic_types.len();
                self.dynamic_types.push(Arc::new(layout));
                let ghost entries_before = string_map_entries(self.dynamic_index);
                string_map_insert(&mut self.dynamic_index, nm, i);
                proof {
                    let m = string_map_entries(self.dynamic_index);
                    assert(m == entries_before.insert(layout.name@, i));
                    assert forall|k: Seq<char>| #[trigger] m.dom().contains(k) implies exists|
                        j: int,
                    |
                        0 <= j < self.dynamic_types@.len() && (*(
                        #[trigger] self.dynamic_types@[j])).name@ == k by {
                        if k == layout.name@ {
                            assert((*self.dynamic_types@[i as int]).name@ == k);
                        } else {
                            assert(entries_before.dom().contains(k));
                            let j = choose|j: int|
                                0 <= j < old(self).dynamic_types@.len() && (*(#[trigger] old(
                                self,
                                ).dynamic_types@[j])).name@ == k;
                            assert((*self.dynamic_types@[j]).name@ == k);
                        }
                    }
                    assert forall|j: int| 0 <= j < self.dynamic_types@.len() implies
                        m.contains_pair(
                        (*(#[trigger] self.dynamic_types@[j])).name@,
                        j as usize,
                    ) by {
                        if j < i as int {
                            assert(entries_before.contains_pair(
                                (*old(self).dynamic_types@[j]).name@,
                                j as usize,
                            ));
                            assert(!entries_before.dom().contains(layout.name@));
                            assert((*old(self).dynamic_types@[j]).name@ != layout.name@);
                        } else {
                            assert((*self.dynamic_types@[j]).name@ == layout.name@);
                        }
                    }
                    assert forall|k: int, l: int|
                        0 <= k < l < self.dynamic_types@.len() implies (*(
                    #[trigger] self.dynamic_types@[k])).name@ != (*(
                    #[trigger] self.dynamic_types@[l])).name@ by {
                        if l < i as int {
                            assert((*old(self).dynamic_types@[k]).name@ != (*old(
                                self,
                            ).dynamic_types@[l]).name@);
                        } else {
                            assert(entries_before.contains_pair(
                                (*old(self).dynamic_types@[k]).name@,
                                k as usize,
                            ));
                            assert(!entries_before.dom().contains(layout.name@));
                        }
                    }
                }
            },
        }
    }

    /// The shared descriptor of the tagged type: the cached one if
    /// the type was registered before, otherwise a newly computed,
    /// cached descriptor (memoized lookup).
    pub fn get_static_layout(&mut self, t: TypeTag) -> (r: Arc<StaticTypeLayout>)
        requires
            old(self).wf(),
        ensures
            final(self).wf(),
            (*r).wf(),
            (*r).type_tag == t,
            forall|t2: TypeTag|
                #[trigger] final(self).spec_has_static(t2) <==> (old(self).spec_has_static(t2) || t2
                    == t),
            final(self).dynamic_types == old(self).dynamic_types,
            final(self).dynamic_index == old(self).dynamic_index,
    {
        let n = self.static_types.len();
        let mut i: usize = 0;
        while i < n
            invariant
                old(self).wf(),
                *self == *old(self),
                n == self.static_types@.len(),
                i <= n,
                forall|j: int|
                    0 <= j < i as int ==> (*(#[trigger] self.static_types@[j])).type_tag != t,
            decreases n - i,
        {
            if self.static_types[i].type_tag == t {
                proof {
                    assert(self.spec_has_static(t));
                }
                return arc_dup(&self.static_types[i]);
            }
            i = i + 1;
        }
        let lay = Arc::new(StaticTypeLayout::of(t));
        self.static_types.push(arc_dup(&lay));
        proof {
            assert((*self.static_types@[self.static_types@.len() - 1]).type_tag == t);
            assert(self.spec_has_static(t));
            assert forall|t2: TypeTag| old(self).spec_has_static(t2) implies self.spec_has_static(
                t2,
            ) by {
                let k = choose|k: int|
                    0 <= k < old(self).static_types@.len() && (*(#[trigger] old(
                        self,
                    ).static_types@[k])).type_tag == t2;
                assert((*self.static_types@[k]).type_tag == t2);
            }
            assert forall|a: int, b: int|
                0 <= a < b < self.static_types@.len() implies (*(
            #[trigger] self.static_types@[a])).type_tag != (*(
            #[trigger] self.static_types@[b])).type_tag by {
                if b == self.static_types@.len() - 1 {
                    assert((*old(self).static_types@[a]).type_tag != t);
                } else {
                    assert((*old(self).static_types@[a]).type_tag != (*old(
                        self,
                    ).static_types@[b]).type_tag);
                }
            }
            assert forall|a: int| 0 <= a < self.static_types@.len() implies (*(
            #[trigger] self.static_types@[a])).wf() by {
                if a < self.static_types@.len() - 1 {
                    assert((*old(self).static_types@[a]).wf());
                }
            }
            assert(self.dynamic_types == old(self).dynamic_types);
            assert(self.dynamic_index == old(self).dynamic_index);
            assert(self.wf());
        }
        lay
    }

    /// The schema registered under the name, if any, by shared
    /// reference.
    pub fn get_dynamic_layout(&self, name: &str) -> (r: Option<Arc<DynamicTypeLayout>>)
        requires
            self.wf(),
        ensures
            self.spec_has_schema(name@) ==> {
                &&& r matches Option::Some(a)
                &&& *a == self.spec_schema_at(name@)
            },
            !self.spec_has_schema(name@) ==> r matches Option::None,
    {
        match string_map_get(&self.dynamic_index, name) {
            Option::Some(i) => {
                proof {
                    assert(string_map_entries(self.dynamic_index).dom().contains(name@));
                    assert(exists|j: int|
                        0 <= j < self.dynamic_types@.len() && (*(
                        #[trigger] self.dynamic_types@[j])).name@ == name@);
                    let j = choose|j: int|
                        0 <= j < self.dynamic_types@.len() && (*(
                        #[trigger] self.dynamic_types@[j])).name@ == name@;
                    assert(self.dynamic_types@.len() == vstd::std_specs::vec::spec_vec_len(
                        &self.dynamic_types,
                    ));
                    assert((j as usize) as int == j);
                    assert(string_map_entries(self.dynamic_index).contains_pair(
                        (*self.dynamic_types@[j]).name@,
                        j as usize,
                    ));
                    assert(i as int == j);
                }
                Option::Some(arc_dup(&self.dynamic_types[i]))
            },
            Option::None => Option::None,
        }
    }

    /// Instantiates a fresh record of the schema registered under the
    /// name.  Instantiating an unregistered name is a fatal
    /// programming error, ruled out here up front;
    /// [`TypeRegistry::try_create_dynamic`] reports it dynamically
    /// instead.
    pub fn create_dynamic(&self, name: &str) -> (r: DynamicStruct)
        requires
            self.wf(),
            self.spec_has_schema(name@),
        ensures
            r.wf(),
            r.spec_layout() == self.spec_schema_at(name@),
            forall|i: int|
                0 <= i < r.data@.len() ==> (#[trigger] r.data@[i])@ == spec_default_value(
                    self.spec_schema_at(name@).field_types@[i],
                ),
    {
        let lay = match self.get_dynamic_layout(name) {
            Option::Some(l) => l,
            Option::None => vstd::pervasive::unreached(),
        };
        DynamicStruct::new(lay)
    }

    /// Instantiates a fresh record of the schema registered under the
    /// name, reporting an unregistered name as an error.
    pub fn try_create_dynamic(&self, name: &str) -> (r: Result<DynamicStruct, DynamicTypeError>)
        requires
            self.wf(),
        ensures
            self.spec_has_schema(name@) ==> {
                &&& r matches Ok(s)
                &&& s.wf()
                &&& s.spec_layout() == self.spec_schema_at(name@)
                &&& forall|i: int|
                    0 <= i < s.data@.len() ==> (#[trigger] s.data@[i])@ == spec_default_value(
                        self.spec_schema_at(name@).field_types@[i],
                    )
            },
            !self.spec_has_schema(name@) ==> {
                &&& r matches Err(DynamicTypeError::UnknownSchemaName { name: nm })
                &&& nm@ == name@
            },
    {
        match self.get_dynamic_layout(name) {
            Option::Some(lay) => Ok(DynamicStruct::new(lay)),
            Option::None => Err(
                DynamicTypeError::UnknownSchemaName { name: String::from_str(name) },
            ),
        }
    }
}

/// Whether a tag belongs to the registration family of a base kind:
/// one of the five wrapped forms of the base, or one of their vector,
/// shared-vector or lock-guarded-vector collections.
pub open spec fn spec_family_member(base: ScalarKind, t: TypeTag) -> bool {
    match t {
        TypeTag::Single(w, b) => b == base && spec_family_wrap(w),
        TypeTag::Many(_, w, b) => b == base && spec_family_wrap(w),
        TypeTag::OptMany(h, w, b) => b == base && spec_family_wrap(w) && (h == Holder::RwH || h
            == Holder::MxH),
    }
}

/// The wrapped forms a family registration covers.
pub open spec fn spec_family_wrap(w: WrapKind) -> bool {
    w == WrapKind::Plain || w == WrapKind::Opt || w == WrapKind::Shared || w == WrapKind::SharedRw
        || w == WrapKind::SharedMx
}

/// Registrations under distinct names never hide one another: after
/// registering two schemas with different names, in either order,
/// both are visible under their own names with the contents they were
/// registered with.
pub proof fn lemma_registrations_visible(
    r0: TypeRegistry,
    r1: TypeRegistry,
    r2: TypeRegistry,
    a: DynamicTypeLayout,
    b: DynamicTypeLayout,
)
    requires
        a.name@ != b.name@,
        spec_registered(r0, r1, a),
        spec_registered(r1, r2, b),
    ensures
        r2.spec_has_schema(a.name@),
        r2.spec_schema_at(a.name@) == a,
        r2.spec_has_schema(b.name@),
        r2.spec_schema_at(b.name@) == b,
{
}

} // verus!
