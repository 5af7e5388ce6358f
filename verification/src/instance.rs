//! Record instances.
//!
//! A [`DynamicStruct`] is a live record: storage conforming to a
//! shared [`DynamicTypeLayout`], one slot per field, with typed
//! accessors in the checked, unchecked and raw tiers.  A fresh
//! instance holds every field's default value.  Consuming an instance
//! through [`DynamicStruct::cast`] (or [`DynamicStruct::try_cast`])
//! transfers ownership of all field values out of the record, so its
//! own teardown has nothing left to revisit; destruction of a live
//! record releases exactly the values it still holds, through plain
//! ownership.

use vstd::prelude::*;
use std::sync::Arc;
use crate::errors::{DynamicFieldError, DynamicTypeError};
use crate::schema::DynamicTypeLayout;
use crate::tags::TypeTag;
use crate::values::{arc_dup, spec_tag_of, spec_value_wf, Value};

verus! {

/// A record instance: exclusive storage plus a shared reference to
/// the schema that shapes it.
#[derive(Debug)]
pub struct DynamicStruct {
    /// The schema every access goes through.  Shared: the catalog and
    /// any number of instances hold the same layout.
    pub type_layout: Arc<DynamicTypeLayout>,
    /// The field slots, one per schema field, exclusively owned by
    /// this instance.
    pub data: Vec<Value>,
}

impl DynamicStruct {
    /// The schema of this record.
    pub open spec fn spec_layout(&self) -> DynamicTypeLayout {
        *self.type_layout
    }

    /// A record is well formed when its schema is, and every slot
    /// holds a well-formed value of its field's declared type.
    pub open spec fn wf(&self) -> bool {
        &&& self.spec_layout().wf()
        &&& self.data@.len() == self.spec_layout().spec_field_count()
        &&& forall|i: int|
            0 <= i < self.data@.len() ==> spec_tag_of((#[trigger] self.data@[i])@)
                == self.spec_layout().field_types@[i]
        &&& forall|i: int| 0 <= i < self.data@.len() ==> spec_value_wf((#[trigger] self.data@[i])@)
    }

    /// Instantiates a record of the given schema: one slot per field,
    /// each holding the field's declared default value.
    pub fn new(type_layout: Arc<DynamicTypeLayout>) -> (r: Self)
        requires
            (*type_layout).wf(),
        ensures
            r.wf(),
            r.spec_layout() == *type_layout,
            r.data@.len() == (*type_layout).spec_field_count(),
            forall|i: int|
                0 <= i < r.data@.len() ==> (#[trigger] r.data@[i])@
                    == crate::values::spec_default_value((*type_layout).field_types@[i]),
    {
        let lay: &DynamicTypeLayout = &*type_layout;
        let n = lay.field_count();
        let mut data: Vec<Value> = Vec::with_capacity(n);
        let mut i: usize = 0;
        while i < n
            invariant
                (*type_layout).wf(),
                n as int == (*type_layout).spec_field_count(),
                i <= n,
                data@.len() == i as int,
                forall|j: int|
                    0 <= j < i as int ==> (#[trigger] data@[j])@
                        == crate::values::spec_default_value((*type_layout).field_types@[j]),
            decreases n - i,
        {
            let lay2: &DynamicTypeLayout = &*type_layout;
            data.push(lay2.field_defaults[i].clone());
            proof {
                crate::values::lemma_default_value_wf((*type_layout).field_types@[i as int]);
            }
            i = i + 1;
        }
        proof {
            assert forall|j: int| 0 <= j < data@.len() implies spec_value_wf(
                (#[trigger] data@[j])@,
            ) && spec_tag_of(data@[j]@) == (*type_layout).field_types@[j] by {
                crate::values::lemma_default_value_wf((*type_layout).field_types@[j]);
            }
        }
        DynamicStruct { type_layout, data }
    }

    /// The record's size: its schema's total size in bytes.
    pub fn size_of(&self) -> (s: usize)
        requires
            self.wf(),
        ensures
            s == self.spec_layout().total_size,
    {
        let lay: &DynamicTypeLayout = &*self.type_layout;
        lay.total_size
    }

    /// Consumes the record as a concrete type of the given size,
    /// transferring ownership of every field value to the caller.
    /// The target size must equal the schema's total size; the
    /// contract rules a mismatch out up front, and nothing of the
    /// record remains for its own teardown to revisit.
    pub fn cast(self, target_size: usize) -> (r: Vec<Value>)
        requires
            self.wf(),
            target_size == self.spec_layout().total_size,
        ensures
            r == self.data,
    {
        self.data
    }

    /// Consumes the record as a concrete type of the given size.  On
    /// a size mismatch the cast fails fatally: it reports the error
    /// and hands the record back untouched, never a partial
    /// reinterpretation.
    pub fn try_cast(self, target_size: usize) -> (r: Result<
        Vec<Value>,
        (DynamicTypeError, DynamicStruct),
    >)
        requires
            self.wf(),
        ensures
            target_size == self.spec_layout().total_size ==> {
                &&& r matches Ok(vals)
                &&& vals == self.data
            },
            target_size != self.spec_layout().total_size ==> {
                &&& r matches Err((e, s))
                &&& e == (DynamicTypeError::SizeMismatchOnConsume {
                    data_size: self.spec_layout().total_size,
                    target_size,
                })
                &&& s == self
            },
    {
        let data_size = self.size_of();
        if data_size != target_size {
            return Err((DynamicTypeError::SizeMismatchOnConsume { data_size, target_size }, self));
        }
        Ok(self.data)
    }

    /// Unchecked-tier write by name; see the schema's access tiers.
    pub fn set_field(&mut self, name: &str, val: Value)
        requires
            old(self).wf(),
            spec_value_wf(val@),
            old(self).spec_layout().spec_has_field(name@),
            spec_tag_of(val@) == old(self).spec_layout().field_types@[old(
                self,
            ).spec_layout().spec_index_of_name(name@)],
        ensures
            final(self).wf(),
            final(self).spec_layout() == old(self).spec_layout(),
            final(self).data@ == old(self).data@.update(
                old(self).spec_layout().spec_index_of_name(name@),
                val,
            ),
    {
        let lay: Arc<DynamicTypeLayout> = arc_dup(&self.type_layout);
        (&*lay).set_field(&mut self.data, name, val);
    }

    /// Unchecked-tier write by position.
    pub fn set_field_by_index(&mut self, val: Value, index: usize)
        requires
            old(self).wf(),
            spec_value_wf(val@),
            (index as int) < old(self).spec_layout().spec_field_count(),
            spec_tag_of(val@) == old(self).spec_layout().field_types@[index as int],
        ensures
            final(self).wf(),
            final(self).spec_layout() == old(self).spec_layout(),
            final(self).data@ == old(self).data@.update(index as int, val),
    {
        let lay: Arc<DynamicTypeLayout> = arc_dup(&self.type_layout);
        (&*lay).set_field_by_index(&mut self.data, index, val);
    }

    /// Checked-tier write by name: validates the field and the
    /// value's type, returning the value inside the error on failure.
    pub fn try_set_field(&mut self, name: &str, val: Value) -> (r: Result<
        (),
        DynamicFieldError<Value>,
    >)
        requires
            old(self).wf(),
            spec_value_wf(val@),
        ensures
            final(self).wf(),
            final(self).spec_layout() == old(self).spec_layout(),
            r matches Ok(_) ==> old(self).spec_layout().spec_has_field(name@) && spec_tag_of(val@)
                == old(self).spec_layout().field_types@[old(self).spec_layout().spec_index_of_name(
                name@,
            )] && final(self).data@ == old(self).data@.update(
                old(self).spec_layout().spec_index_of_name(name@),
                val,
            ),
            r matches Err(_) ==> final(self).data@ == old(self).data@,
            !old(self).spec_layout().spec_has_field(name@) ==> {
                &&& r matches Err(DynamicFieldError::SetFieldNameNotFound { name: nm, value: v })
                &&& nm@ == name@
                &&& v == val
            },
            old(self).spec_layout().spec_has_field(name@) && spec_tag_of(val@) != old(
                self,
            ).spec_layout().field_types@[old(self).spec_layout().spec_index_of_name(name@)] ==> {
                &&& r matches Err(DynamicFieldError::SetInvalidTypeOfField {
                    value: v,
                    type_requested: tr,
                    actual_type: at,
                })
                &&& v == val
                &&& tr@ == crate::tags::spec_tag_name(spec_tag_of(val@))
                &&& at@ == crate::tags::spec_tag_name(
                    old(self).spec_layout().field_types@[old(
                        self,
                    ).spec_layout().spec_index_of_name(name@)],
                )
            },
            old(self).spec_layout().spec_has_field(name@) && spec_tag_of(val@) == old(
                self,
            ).spec_layout().field_types@[old(self).spec_layout().spec_index_of_name(name@)] ==> r
                matches Ok(_),
    {
        let lay: Arc<DynamicTypeLayout> = arc_dup(&self.type_layout);
        (&*lay).try_set_field(&mut self.data, name, val)
    }

    /// Checked-tier write by position.
    pub fn try_set_field_by_index(&mut self, val: Value, index: usize) -> (r: Result<
        (),
        DynamicFieldError<Value>,
    >)
        requires
            old(self).wf(),
            spec_value_wf(val@),
        ensures
            final(self).wf(),
            final(self).spec_layout() == old(self).spec_layout(),
            (index as int) >= old(self).spec_layout().spec_field_count() ==> {
                &&& final(self).data@ == old(self).data@
                &&& r matches Err(e)
                &&& e == (DynamicFieldError::FieldSetIndexOutOfBounds { value: val, index })
            },
            (index as int) < old(self).spec_layout().spec_field_count() && spec_tag_of(val@) != old(
                self,
            ).spec_layout().field_types@[index as int] ==> {
                &&& final(self).data@ == old(self).data@
                &&& r matches Err(DynamicFieldError::SetInvalidTypeOfField {
                    value: v,
                    type_requested: tr,
                    actual_type: at,
                })
                &&& v == val
                &&& tr@ == crate::tags::spec_tag_name(spec_tag_of(val@))
                &&& at@ == crate::tags::spec_tag_name(
                    old(self).spec_layout().field_types@[index as int],
                )
            },
            (index as int) < old(self).spec_layout().spec_field_count() && spec_tag_of(val@) == old(
                self,
            ).spec_layout().field_types@[index as int] ==> {
                &&& r matches Ok(_)
                &&& final(self).data@ == old(self).data@.update(index as int, val)
            },
    {
        let lay: Arc<DynamicTypeLayout> = arc_dup(&self.type_layout);
        (&*lay).try_set_field_by_index(&mut self.data, index, val)
    }

    /// Unchecked-tier read by name: a duplicate of the field's value.
    pub fn clone_field(&self, name: &str, requested: TypeTag) -> (r: Value)
        requires
            self.wf(),
            self.spec_layout().spec_has_field(name@),
            requested == self.spec_layout().field_types@[self.spec_layout().spec_index_of_name(
                name@,
            )],
        ensures
            r@ == self.data@[self.spec_layout().spec_index_of_name(name@)]@,
    {
        let lay: &DynamicTypeLayout = &*self.type_layout;
        lay.clone_field(&self.data, name, requested)
    }

    /// Unchecked-tier read by position.
    pub fn clone_field_by_index(&self, index: usize, requested: TypeTag) -> (r: Value)
        requires
            self.wf(),
            (index as int) < self.spec_layout().spec_field_count(),
            requested == self.spec_layout().field_types@[index as int],
        ensures
            r@ == self.data@[index as int]@,
    {
        let lay: &DynamicTypeLayout = &*self.type_layout;
        lay.clone_field_by_index(&self.data, index, requested)
    }

    /// Checked-tier read by name.
    pub fn try_clone_field(&self, name: &str, requested: TypeTag) -> (r: Result<
        Value,
        DynamicFieldError<()>,
    >)
        requires
            self.wf(),
        ensures
            !self.spec_layout().spec_has_field(name@) ==> {
                &&& r matches Err(DynamicFieldError::GetFieldNameNotFound { name: nm })
                &&& nm@ == name@
            },
            self.spec_layout().spec_has_field(name@) && requested
                != self.spec_layout().field_types@[self.spec_layout().spec_index_of_name(name@)]
                ==> {
                &&& r matches Err(DynamicFieldError::GetInvalidTypeOfField {
                    type_requested: tr,
                    actual_type: at,
                })
                &&& tr@ == crate::tags::spec_tag_name(requested)
                &&& at@ == crate::tags::spec_tag_name(
                    self.spec_layout().field_types@[self.spec_layout().spec_index_of_name(name@)],
                )
            },
            self.spec_layout().spec_has_field(name@) && requested
                == self.spec_layout().field_types@[self.spec_layout().spec_index_of_name(name@)]
                ==> {
                &&& r matches Ok(v)
                &&& v@ == self.data@[self.spec_layout().spec_index_of_name(name@)]@
            },
    {
        let lay: &DynamicTypeLayout = &*self.type_layout;
        lay.try_clone_field(&self.data, name, requested)
    }

    /// Checked-tier read by position.
    pub fn try_clone_field_by_index(&self, index: usize, requested: TypeTag) -> (r: Result<
        Value,
        DynamicFieldError<()>,
    >)
        requires
            self.wf(),
        ensures
            (index as int) >= self.spec_layout().spec_field_count() ==> {
                &&& r matches Err(e)
                &&& e == (DynamicFieldError::<()>::FieldGetIndexOutOfBounds { index })
            },
            (index as int) < self.spec_layout().spec_field_count() && requested
                != self.spec_layout().field_types@[index as int] ==> {
                &&& r matches Err(DynamicFieldError::GetInvalidTypeOfField {
                    type_requested: tr,
                    actual_type: at,
                })
                &&& tr@ == crate::tags::spec_tag_name(requested)
                &&& at@ == crate::tags::spec_tag_name(self.spec_layout().field_types@[index as int])
            },
            (index as int) < self.spec_layout().spec_field_count() && requested
                == self.spec_layout().field_types@[index as int] ==> {
                &&& r matches Ok(v)
                &&& v@ == self.data@[index as int]@
            },
    {
        let lay: &DynamicTypeLayout = &*self.type_layout;
        lay.try_clone_field_by_index(&self.data, index, requested)
    }

    /// Unchecked-tier borrow by name: a reference into the record's
    /// storage, valid no longer than the record.
    pub fn get_field_ref<'a>(&'a self, name: &str, requested: TypeTag) -> (r: &'a Value)
        requires
            self.wf(),
            self.spec_layout().spec_has_field(name@),
            requested == self.spec_layout().field_types@[self.spec_layout().spec_index_of_name(
                name@,
            )],
        ensures
            *r == self.data@[self.spec_layout().spec_index_of_name(name@)],
    {
        let lay: &DynamicTypeLayout = &*self.type_layout;
        lay.get_field_ref(&self.data, name, requested)
    }

    /// Unchecked-tier borrow by position.
    pub fn get_field_ref_by_index<'a>(&'a self, index: usize, requested: TypeTag) -> (r: &'a Value)
        requires
            self.wf(),
            (index as int) < self.spec_layout().spec_field_count(),
            requested == self.spec_layout().field_types@[index as int],
        ensures
            *r == self.data@[index as int],
    {
        let lay: &DynamicTypeLayout = &*self.type_layout;
        lay.get_field_ref_by_index(&self.data, index, requested)
    }

    /// Checked-tier borrow by name.
    pub fn try_get_field_ref<'a>(&'a self, name: &str, requested: TypeTag) -> (r: Result<
        &'a Value,
        DynamicFieldError<()>,
    >)
        requires
            self.wf(),
        ensures
            !self.spec_layout().spec_has_field(name@) ==> {
                &&& r matches Err(DynamicFieldError::GetFieldNameNotFound { name: nm })
                &&& nm@ == name@
            },
            self.spec_layout().spec_has_field(name@) && requested
                != self.spec_layout().field_types@[self.spec_layout().spec_index_of_name(name@)]
                ==> {
                &&& r matches Err(DynamicFieldError::GetInvalidTypeOfField {
                    type_requested: tr,
                    actual_type: at,
                })
                &&& tr@ == crate::tags::spec_tag_name(requested)
                &&& at@ == crate::tags::spec_tag_name(
                    self.spec_layout().field_types@[self.spec_layout().spec_index_of_name(name@)],
                )
            },
            self.spec_layout().spec_has_field(name@) && requested
                == self.spec_layout().field_types@[self.spec_layout().spec_index_of_name(name@)]
                ==> {
                &&& r matches Ok(v)
                &&& *v == self.data@[self.spec_layout().spec_index_of_name(name@)]
            },
    {
        let lay: &DynamicTypeLayout = &*self.type_layout;
        lay.try_get_field_ref(&self.data, name, requested)
    }

    /// Checked-tier borrow by position.
    pub fn try_get_field_ref_by_index<'a>(&'a self, index: usize, requested: TypeTag) -> (r:
        Result<&'a Value, DynamicFieldError<()>>)
        requires
            self.wf(),
        ensures
            (index as int) >= self.spec_layout().spec_field_count() ==> {
                &&& r matches Err(e)
                &&& e == (DynamicFieldError::<()>::FieldGetIndexOutOfBounds { index })
            },
            (index as int) < self.spec_layout().spec_field_count() && requested
                != self.spec_layout().field_types@[index as int] ==> {
                &&& r matches Err(DynamicFieldError::GetInvalidTypeOfField {
                    type_requested: tr,
                    actual_type: at,
                })
                &&& tr@ == crate::tags::spec_tag_name(requested)
                &&& at@ == crate::tags::spec_tag_name(self.spec_layout().field_types@[index as int])
            },
            (index as int) < self.spec_layout().spec_field_count() && requested
                == self.spec_layout().field_types@[index as int] ==> {
                &&& r matches Ok(v)
                &&& *v == self.data@[index as int]
            },
    {
        let lay: &DynamicTypeLayout = &*self.type_layout;
        lay.try_get_field_ref_by_index(&self.data, index, requested)
    }

    /// Unchecked-tier mutable borrow by name.  What the caller leaves
    /// behind the reference becomes the field's value; keeping the
    /// field's declared type is the caller's obligation, as in the
    /// raw tier.
    pub fn get_field_mut<'a>(&'a mut self, name: &str, requested: TypeTag) -> (r: &'a mut Value)
        requires
            old(self).wf(),
            old(self).spec_layout().spec_has_field(name@),
            requested == old(self).spec_layout().field_types@[old(
                self,
            ).spec_layout().spec_index_of_name(name@)],
        ensures
            final(self).spec_layout() == old(self).spec_layout(),
            *r == old(self).data@[old(self).spec_layout().spec_index_of_name(name@)],
            final(self).data@ == old(self).data@.update(
                old(self).spec_layout().spec_index_of_name(name@),
                *final(r),
            ),
    {
        let lay: Arc<DynamicTypeLayout> = arc_dup(&self.type_layout);
        (&*lay).get_field_mut(&mut self.data, name, requested)
    }

    /// Unchecked-tier mutable borrow by position.
    pub fn get_field_mut_by_index<'a>(&'a mut self, index: usize, requested: TypeTag) -> (r:
        &'a mut Value)
        requires
            old(self).wf(),
            (index as int) < old(self).spec_layout().spec_field_count(),
            requested == old(self).spec_layout().field_types@[index as int],
        ensures
            final(self).spec_layout() == old(self).spec_layout(),
            *r == old(self).data@[index as int],
            final(self).data@ == old(self).data@.update(index as int, *final(r)),
    {
        let lay: Arc<DynamicTypeLayout> = arc_dup(&self.type_layout);
        (&*lay).get_field_mut_by_index(&mut self.data, index, requested)
    }
    /// Checked-tier mutable borrow by name.  On success, what the
    /// caller leaves behind the reference becomes the field's value.
    pub fn try_get_field_mut<'a>(&'a mut self, name: &str, requested: TypeTag) -> (r: Result<
        &'a mut Value,
        DynamicFieldError<()>,
    >)
        requires
            old(self).wf(),
        ensures
            final(self).spec_layout() == old(self).spec_layout(),
            !old(self).spec_layout().spec_has_field(name@) ==> {
                &&& final(self).data@ == old(self).data@
                &&& r matches Err(DynamicFieldError::GetFieldNameNotFound { name: nm })
                &&& nm@ == name@
            },
            old(self).spec_layout().spec_has_field(name@) && requested != old(
                self,
            ).spec_layout().field_types@[old(self).spec_layout().spec_index_of_name(name@)] ==> {
                &&& final(self).data@ == old(self).data@
                &&& r matches Err(DynamicFieldError::GetInvalidTypeOfField {
                    type_requested: tr,
                    actual_type: at,
                })
                &&& tr@ == crate::tags::spec_tag_name(requested)
                &&& at@ == crate::tags::spec_tag_name(
                    old(self).spec_layout().field_types@[old(
                        self,
                    ).spec_layout().spec_index_of_name(name@)],
                )
            },
            old(self).spec_layout().spec_has_field(name@) && requested == old(
                self,
            ).spec_layout().field_types@[old(self).spec_layout().spec_index_of_name(name@)] ==> {
                &&& r matches Ok(m)
                &&& *m == old(self).data@[old(self).spec_layout().spec_index_of_name(name@)]
                &&& final(self).data@ == old(self).data@.update(
                    old(self).spec_layout().spec_index_of_name(name@),
                    *final(m),
                )
            },
    {
        let lay: Arc<DynamicTypeLayout> = arc_dup(&self.type_layout);
        (&*lay).try_get_field_mut(&mut self.data, name, requested)
    }

    /// Checked-tier mutable borrow by position.
    pub fn try_get_field_mut_by_index<'a>(&'a mut self, index: usize, requested: TypeTag) -> (r:
        Result<&'a mut Value, DynamicFieldError<()>>)
        requires
            old(self).wf(),
        ensures
            final(self).spec_layout() == old(self).spec_layout(),
            (index as int) >= old(self).spec_layout().spec_field_count() ==> {
                &&& final(self).data@ == old(self).data@
                &&& r matches Err(e)
                &&& e == (DynamicFieldError::<()>::FieldGetIndexOutOfBounds { index })
            },
            (index as int) < old(self).spec_layout().spec_field_count() && requested != old(
                self,
            ).spec_layout().field_types@[index as int] ==> {
                &&& final(self).data@ == old(self).data@
                &&& r matches Err(DynamicFieldError::GetInvalidTypeOfField {
                    type_requested: tr,
                    actual_type: at,
                })
                &&& tr@ == crate::tags::spec_tag_name(requested)
                &&& at@ == crate::tags::spec_tag_name(
                    old(self).spec_layout().field_types@[index as int],
                )
            },
            (index as int) < old(self).spec_layout().spec_field_count() && requested == old(
                self,
            ).spec_layout().field_types@[index as int] ==> {
                &&& r matches Ok(m)
                &&& *m == old(self).data@[index as int]
                &&& final(self).data@ == old(self).data@.update(index as int, *final(m))
            },
    {
        let lay: Arc<DynamicTypeLayout> = arc_dup(&self.type_layout);
        (&*lay).try_get_field_mut_by_index(&mut self.data, index, requested)
    }
}

/// A record fresh from instantiation reads back, through the checked
/// tier, each field's declared default value: instantiation fills
/// every slot with the default of its field's type, and a checked
/// read of slot `i` hands back exactly that slot's content.
pub proof fn lemma_fresh_record_defaults(r: DynamicStruct, i: int)
    requires
        r.wf(),
        forall|j: int|
            0 <= j < r.data@.len() ==> (#[trigger] r.data@[j])@ == crate::values::spec_default_value(
                r.spec_layout().field_types@[j],
            ),
        0 <= i < r.spec_layout().spec_field_count(),
    ensures
        r.data@[i]@ == crate::values::spec_default_value(r.spec_layout().field_types@[i]),
{
}

/// Set/get round trip: writing a well-typed value to a field and
/// then reading the same field back through the checked tier yields
/// the written value, keeps the record well formed, and leaves every
/// other field untouched.
pub proof fn lemma_set_get_round_trip(pre: DynamicStruct, post: DynamicStruct, i: int, v: Value)
    requires
        pre.wf(),
        0 <= i < pre.spec_layout().spec_field_count(),
        spec_value_wf(v@),
        spec_tag_of(v@) == pre.spec_layout().field_types@[i],
        post.spec_layout() == pre.spec_layout(),
        post.data@ == pre.data@.update(i, v),
    ensures
        post.wf(),
        post.data@[i]@ == v@,
        forall|j: int| 0 <= j < pre.data@.len() && j != i ==> post.data@[j] == pre.data@[j],
{
}

} // verus!
