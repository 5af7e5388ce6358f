//! Field access tiers.
//!
//! A schema reads and writes field slots of a record's storage in
//! three tiers, mirrored from the engine's contract:
//!
//! * the *checked* tier (`try_*`) validates the field and the
//!   requested type and reports failures as [`DynamicFieldError`]
//!   results;
//! * the *unchecked* tier treats the same failures as unrecoverable
//!   programming errors, which these verified entry points rule out
//!   up front through their preconditions;
//! * the *raw* tier (`*_unchecked_by_index`) performs no validation
//!   at all; its preconditions are exactly the obligations the
//!   engine's contract places on callers who have already proven
//!   index and type correctness by construction.
//!
//! Writes overwrite a slot without destroying the previous occupant
//! (placement-overwrite semantics): a caller replacing a field that
//! owns resources must read the old value out first if those
//! resources have to be released, or the engine leaks them, by
//! design.

use vstd::prelude::*;
use vstd::string::StringExecFns;
use crate::errors::DynamicFieldError;
use crate::schema::DynamicTypeLayout;
use crate::tags::{spec_tag_name, tag_name, TypeTag};
use crate::values::{spec_tag_of, tag_of, Value};

verus! {

/// Relies on `std::mem::forget`: consumes the value without running
/// its teardown.  The engine uses it to give writes their documented
/// placement-overwrite semantics: the previous occupant of a slot is
/// not destroyed, its resources now belong to whoever read it out
/// earlier, or leak.
#[verifier::external_body]
fn forget_value(v: Value) {
    std::mem::forget(v);
}

impl DynamicTypeLayout {
    /// Whether the schema has a field with the given name.
    pub open spec fn spec_has_field(&self, n: Seq<char>) -> bool {
        exists|i: int|
            0 <= i < self.spec_field_count() && (#[trigger] self.field_names@[i])@ == n
    }

    /// The position of the named field (meaningful when the schema
    /// has exactly one, which well-formedness guarantees).
    pub open spec fn spec_index_of_name(&self, n: Seq<char>) -> int {
        choose|i: int|
            0 <= i < self.spec_field_count() && (#[trigger] self.field_names@[i])@ == n
    }
}

/// In a well-formed schema, a field's name resolves to exactly its
/// own position.
pub proof fn lemma_index_of_name(s: &DynamicTypeLayout, j: int)
    requires
        s.wf(),
        0 <= j < s.spec_field_count(),
    ensures
        s.spec_has_field(s.field_names@[j]@),
        s.spec_index_of_name(s.field_names@[j]@) == j,
{
    let n = s.field_names@[j]@;
    assert(s.spec_has_field(n));
    let i = s.spec_index_of_name(n);
    assert(0 <= i < s.spec_field_count() && s.field_names@[i]@ == n);
    if i < j {
        assert(s.field_names@[i]@ != s.field_names@[j]@);
    } else if j < i {
        assert(s.field_names@[j]@ != s.field_names@[i]@);
    }
}

impl DynamicTypeLayout {
    /// Raw-tier write: stores `val` in slot `index` with no
    /// validation.  The preconditions are the obligations the raw
    /// tier's contract places on its callers: the index exists and
    /// the value's type is the field's declared type.  The previous
    /// occupant is not destroyed (placement overwrite).
    pub fn set_field_unchecked_by_index(&self, data: &mut Vec<Value>, index: usize, val: Value)
        requires
            self.wf(),
            old(data)@.len() == self.spec_field_count(),
            (index as int) < self.spec_field_count(),
            spec_tag_of(val@) == self.field_types@[index as int],
        ensures
            final(data)@ == old(data)@.update(index as int, val),
    {
        let prev = data.remove(index);
        data.insert(index, val);
        forget_value(prev);
        proof {
            assert(data@ =~= old(data)@.update(index as int, val));
        }
    }

    /// Unchecked-tier write by position.  A bad index or a value of
    /// the wrong type is an unrecoverable programming error here,
    /// ruled out by the preconditions.
    pub fn set_field_by_index(&self, data: &mut Vec<Value>, index: usize, val: Value)
        requires
            self.wf(),
            old(data)@.len() == self.spec_field_count(),
            (index as int) < self.spec_field_count(),
            spec_tag_of(val@) == self.field_types@[index as int],
        ensures
            final(data)@ == old(data)@.update(index as int, val),
    {
        self.set_field_unchecked_by_index(data, index, val);
    }

    /// Unchecked-tier write by name.  An unknown name or a value of
    /// the wrong type is an unrecoverable programming error here,
    /// ruled out by the preconditions.
    pub fn set_field(&self, data: &mut Vec<Value>, name: &str, val: Value)
        requires
            self.wf(),
            old(data)@.len() == self.spec_field_count(),
            self.spec_has_field(name@),
            spec_tag_of(val@) == self.field_types@[self.spec_index_of_name(name@)],
        ensures
            final(data)@ == old(data)@.update(self.spec_index_of_name(name@), val),
    {
        let index = match self.index_of(name) {
            Option::Some(i) => i,
            Option::None => vstd::pervasive::unreached(),
        };
        proof {
            lemma_index_of_name(self, index as int);
        }
        self.set_field_unchecked_by_index(data, index, val);
    }

    /// Checked-tier write by position: validates the index and the
    /// value's type before touching storage, and reports failures
    /// without losing the value.
    pub fn try_set_field_by_index(&self, data: &mut Vec<Value>, index: usize, val: Value) -> (r:
        Result<(), DynamicFieldError<Value>>)
        requires
            self.wf(),
            old(data)@.len() == self.spec_field_count(),
        ensures
            (index as int) >= self.spec_field_count() ==> {
                &&& final(data)@ == old(data)@
                &&& r matches Err(e) && e == (DynamicFieldError::FieldSetIndexOutOfBounds {
                    value: val,
                    index,
                })
            },
            (index as int) < self.spec_field_count() && spec_tag_of(val@)
                != self.field_types@[index as int] ==> {
                &&& final(data)@ == old(data)@
                &&& r matches Err(DynamicFieldError::SetInvalidTypeOfField {
                    value: v,
                    type_requested: tr,
                    actual_type: at,
                }) && v == val && tr@ == spec_tag_name(spec_tag_of(val@)) && at@ == spec_tag_name(
                    self.field_types@[index as int],
                )
            },
            (index as int) < self.spec_field_count() && spec_tag_of(val@)
                == self.field_types@[index as int] ==> {
                &&& r matches Ok(u) && u == ()
                &&& final(data)@ == old(data)@.update(index as int, val)
            },
    {
        if index >= self.field_count() {
            return Err(DynamicFieldError::FieldSetIndexOutOfBounds { value: val, index });
        }
        let declared = self.field_types[index];
        let actual = tag_of(&val);
        if actual == declared {
            self.set_field_unchecked_by_index(data, index, val);
            Ok(())
        } else {
            let requested_name = tag_name(actual);
            let declared_name = self.field_type_names[index].clone();
            Err(
                DynamicFieldError::SetInvalidTypeOfField {
                    value: val,
                    type_requested: requested_name,
                    actual_type: declared_name,
                },
            )
        }
    }

    /// Checked-tier write by name: validates the name and the value's
    /// type before touching storage, and reports failures without
    /// losing the value.
    pub fn try_set_field(&self, data: &mut Vec<Value>, name: &str, val: Value) -> (r: Result<
        (),
        DynamicFieldError<Value>,
    >)
        requires
            self.wf(),
            old(data)@.len() == self.spec_field_count(),
        ensures
            !self.spec_has_field(name@) ==> {
                &&& final(data)@ == old(data)@
                &&& r matches Err(DynamicFieldError::SetFieldNameNotFound { name: nm, value: v })
                    && nm@ == name@ && v == val
            },
            self.spec_has_field(name@) && spec_tag_of(val@)
                != self.field_types@[self.spec_index_of_name(name@)] ==> {
                &&& final(data)@ == old(data)@
                &&& r matches Err(DynamicFieldError::SetInvalidTypeOfField {
                    value: v,
                    type_requested: tr,
                    actual_type: at,
                }) && v == val && tr@ == spec_tag_name(spec_tag_of(val@)) && at@ == spec_tag_name(
                    self.field_types@[self.spec_index_of_name(name@)],
                )
            },
            self.spec_has_field(name@) && spec_tag_of(val@)
                == self.field_types@[self.spec_index_of_name(name@)] ==> {
                &&& r matches Ok(u) && u == ()
                &&& final(data)@ == old(data)@.update(self.spec_index_of_name(name@), val)
            },
    {
        match self.index_of(name) {
            Option::Some(index) => {
                proof {
                    lemma_index_of_name(self, index as int);
                }
                self.try_set_field_by_index(data, index, val)
            },
            Option::None => Err(
                DynamicFieldError::SetFieldNameNotFound {
                    name: String::from_str(name),
                    value: val,
                },
            ),
        }
    }

    /// Raw-tier read: duplicates the value in slot `index` with no
    /// validation.  The precondition is the raw tier's caller
    /// obligation: the index exists.
    pub fn clone_field_unchecked_by_index(&self, data: &Vec<Value>, index: usize) -> (r: Value)
        requires
            self.wf(),
            data@.len() == self.spec_field_count(),
            (index as int) < self.spec_field_count(),
        ensures
            r@ == data@[index as int]@,
    {
        data[index].clone()
    }

    /// Unchecked-tier read by position: the requested type must be
    /// the field's declared type, an obligation ruled out by the
    /// preconditions rather than checked at run time.
    pub fn clone_field_by_index(&self, data: &Vec<Value>, index: usize, requested: TypeTag) -> (r:
        Value)
        requires
            self.wf(),
            data@.len() == self.spec_field_count(),
            (index as int) < self.spec_field_count(),
            requested == self.field_types@[index as int],
        ensures
            r@ == data@[index as int]@,
    {
        self.clone_field_unchecked_by_index(data, index)
    }

    /// Unchecked-tier read by name.
    pub fn clone_field(&self, data: &Vec<Value>, name: &str, requested: TypeTag) -> (r: Value)
        requires
            self.wf(),
            data@.len() == self.spec_field_count(),
            self.spec_has_field(name@),
            requested == self.field_types@[self.spec_index_of_name(name@)],
        ensures
            r@ == data@[self.spec_index_of_name(name@)]@,
    {
        let index = match self.index_of(name) {
            Option::Some(i) => i,
            Option::None => vstd::pervasive::unreached(),
        };
        proof {
            lemma_index_of_name(self, index as int);
        }
        self.clone_field_unchecked_by_index(data, index)
    }

    /// Checked-tier read by position: validates the index and the
    /// requested type, then hands out a duplicate of the field's
    /// value.
    pub fn try_clone_field_by_index(&self, data: &Vec<Value>, index: usize, requested: TypeTag)
        -> (r: Result<Value, DynamicFieldError<()>>)
        requires
            self.wf(),
            data@.len() == self.spec_field_count(),
        ensures
            (index as int) >= self.spec_field_count() ==> {
                &&& r matches Err(e)
                &&& e == (DynamicFieldError::<()>::FieldGetIndexOutOfBounds { index })
            },
            (index as int) < self.spec_field_count() && requested != self.field_types@[index as int]
                ==> {
                &&& r matches Err(DynamicFieldError::GetInvalidTypeOfField {
                    type_requested: tr,
                    actual_type: at,
                })
                &&& tr@ == spec_tag_name(requested)
                &&& at@ == spec_tag_name(self.field_types@[index as int])
            },
            (index as int) < self.spec_field_count() && requested == self.field_types@[index as int]
                ==> {
                &&& r matches Ok(v)
                &&& v@ == data@[index as int]@
            },
    {
        if index >= self.field_count() {
            return Err(DynamicFieldError::FieldGetIndexOutOfBounds { index });
        }
        let declared = self.field_types[index];
        if requested == declared {
            Ok(self.clone_field_unchecked_by_index(data, index))
        } else {
            Err(
                DynamicFieldError::GetInvalidTypeOfField {
                    type_requested: tag_name(requested),
                    actual_type: self.field_type_names[index].clone(),
                },
            )
        }
    }

    /// Checked-tier read by name.
    pub fn try_clone_field(&self, data: &Vec<Value>, name: &str, requested: TypeTag) -> (r: Result<
        Value,
        DynamicFieldError<()>,
    >)
        requires
            self.wf(),
            data@.len() == self.spec_field_count(),
        ensures
            !self.spec_has_field(name@) ==> {
                &&& r matches Err(DynamicFieldError::GetFieldNameNotFound { name: nm })
                &&& nm@ == name@
            },
            self.spec_has_field(name@) && requested != self.field_types@[self.spec_index_of_name(
                name@,
            )] ==> {
                &&& r matches Err(DynamicFieldError::GetInvalidTypeOfField {
                    type_requested: tr,
                    actual_type: at,
                })
                &&& tr@ == spec_tag_name(requested)
                &&& at@ == spec_tag_name(self.field_types@[self.spec_index_of_name(name@)])
            },
            self.spec_has_field(name@) && requested == self.field_types@[self.spec_index_of_name(
                name@,
            )] ==> {
                &&& r matches Ok(v)
                &&& v@ == data@[self.spec_index_of_name(name@)]@
            },
    {
        match self.index_of(name) {
            Option::Some(index) => {
                proof {
                    lemma_index_of_name(self, index as int);
                }
                self.try_clone_field_by_index(data, index, requested)
            },
            Option::None => Err(
                DynamicFieldError::GetFieldNameNotFound {
                    name: String::from_str(name),
                },
            ),
        }
    }

    /// Raw-tier borrow: a reference to the value in slot `index`,
    /// with no validation.
    pub fn get_field_ref_unchecked_by_index<'a>(&self, data: &'a Vec<Value>, index: usize) -> (r:
        &'a Value)
        requires
            self.wf(),
            data@.len() == self.spec_field_count(),
            (index as int) < self.spec_field_count(),
        ensures
            *r == data@[index as int],
    {
        &data[index]
    }

    /// Unchecked-tier borrow by position.
    pub fn get_field_ref_by_index<'a>(
        &self,
        data: &'a Vec<Value>,
        index: usize,
        requested: TypeTag,
    ) -> (r: &'a Value)
        requires
            self.wf(),
            data@.len() == self.spec_field_count(),
            (index as int) < self.spec_field_count(),
            requested == self.field_types@[index as int],
        ensures
            *r == data@[index as int],
    {
        self.get_field_ref_unchecked_by_index(data, index)
    }

    /// Unchecked-tier borrow by name.
    pub fn get_field_ref<'a>(&self, data: &'a Vec<Value>, name: &str, requested: TypeTag) -> (r:
        &'a Value)
        requires
            self.wf(),
            data@.len() == self.spec_field_count(),
            self.spec_has_field(name@),
            requested == self.field_types@[self.spec_index_of_name(name@)],
        ensures
            *r == data@[self.spec_index_of_name(name@)],
    {
        let index = match self.index_of(name) {
            Option::Some(i) => i,
            Option::None => vstd::pervasive::unreached(),
        };
        proof {
            lemma_index_of_name(self, index as int);
        }
        self.get_field_ref_unchecked_by_index(data, index)
    }

    /// Checked-tier borrow by position.
    pub fn try_get_field_ref_by_index<'a>(
        &self,
        data: &'a Vec<Value>,
        index: usize,
        requested: TypeTag,
    ) -> (r: Result<&'a Value, DynamicFieldError<()>>)
        requires
            self.wf(),
            data@.len() == self.spec_field_count(),
        ensures
            (index as int) >= self.spec_field_count() ==> {
                &&& r matches Err(e)
                &&& e == (DynamicFieldError::<()>::FieldGetIndexOutOfBounds { index })
            },
            (index as int) < self.spec_field_count() && requested != self.field_types@[index as int]
                ==> {
                &&& r matches Err(DynamicFieldError::GetInvalidTypeOfField {
                    type_requested: tr,
                    actual_type: at,
                })
                &&& tr@ == spec_tag_name(requested)
                &&& at@ == spec_tag_name(self.field_types@[index as int])
            },
            (index as int) < self.spec_field_count() && requested == self.field_types@[index as int]
                ==> {
                &&& r matches Ok(v)
                &&& *v == data@[index as int]
            },
    {
        if index >= self.field_count() {
            return Err(DynamicFieldError::FieldGetIndexOutOfBounds { index });
        }
        let declared = self.field_types[index];
        if requested == declared {
            Ok(self.get_field_ref_unchecked_by_index(data, index))
        } else {
            Err(
                DynamicFieldError::GetInvalidTypeOfField {
                    type_requested: tag_name(requested),
                    actual_type: self.field_type_names[index].clone(),
                },
            )
        }
    }

    /// Checked-tier borrow by name.
    pub fn try_get_field_ref<'a>(&self, data: &'a Vec<Value>, name: &str, requested: TypeTag)
        -> (r: Result<&'a Value, DynamicFieldError<()>>)
        requires
            self.wf(),
            data@.len() == self.spec_field_count(),
        ensures
            !self.spec_has_field(name@) ==> {
                &&& r matches Err(DynamicFieldError::GetFieldNameNotFound { name: nm })
                &&& nm@ == name@
            },
            self.spec_has_field(name@) && requested != self.field_types@[self.spec_index_of_name(
                name@,
            )] ==> {
                &&& r matches Err(DynamicFieldError::GetInvalidTypeOfField {
                    type_requested: tr,
                    actual_type: at,
                })
                &&& tr@ == spec_tag_name(requested)
                &&& at@ == spec_tag_name(self.field_types@[self.spec_index_of_name(name@)])
            },
            self.spec_has_field(name@) && requested == self.field_types@[self.spec_index_of_name(
                name@,
            )] ==> {
                &&& r matches Ok(v)
                &&& *v == data@[self.spec_index_of_name(name@)]
            },
    {
        match self.index_of(name) {
            Option::Some(index) => {
                proof {
                    lemma_index_of_name(self, index as int);
                }
                self.try_get_field_ref_by_index(data, index, requested)
            },
            Option::None => Err(
                DynamicFieldError::GetFieldNameNotFound {
                    name: String::from_str(name),
                },
            ),
        }
    }

    /// Raw-tier mutable borrow: a mutable reference to the value in
    /// slot `index`, with no validation.  Whatever the caller leaves
    /// behind the reference becomes the slot's value; storing a value
    /// of another type than the field's declared one breaks the
    /// record's typing and is the caller's obligation to avoid.
    pub fn get_field_mut_unchecked_by_index<'a>(&self, data: &'a mut Vec<Value>, index: usize)
        -> (r: &'a mut Value)
        requires
            self.wf(),
            old(data)@.len() == self.spec_field_count(),
            (index as int) < self.spec_field_count(),
        ensures
            *r == old(data)@[index as int],
            final(data)@ == old(data)@.update(index as int, *final(r)),
    {
        &mut data[index]
    }

    /// Unchecked-tier mutable borrow by position.
    pub fn get_field_mut_by_index<'a>(
        &self,
        data: &'a mut Vec<Value>,
        index: usize,
        requested: TypeTag,
    ) -> (r: &'a mut Value)
        requires
            self.wf(),
            old(data)@.len() == self.spec_field_count(),
            (index as int) < self.spec_field_count(),
            requested == self.field_types@[index as int],
        ensures
            *r == old(data)@[index as int],
            final(data)@ == old(data)@.update(index as int, *final(r)),
    {
        self.get_field_mut_unchecked_by_index(data, index)
    }

    /// Unchecked-tier mutable borrow by name.
    pub fn get_field_mut<'a>(&self, data: &'a mut Vec<Value>, name: &str, requested: TypeTag)
        -> (r: &'a mut Value)
        requires
            self.wf(),
            old(data)@.len() == self.spec_field_count(),
            self.spec_has_field(name@),
            requested == self.field_types@[self.spec_index_of_name(name@)],
        ensures
            *r == old(data)@[self.spec_index_of_name(name@)],
            final(data)@ == old(data)@.update(self.spec_index_of_name(name@), *final(r)),
    {
        let index = match self.index_of(name) {
            Option::Some(i) => i,
            Option::None => vstd::pervasive::unreached(),
        };
        proof {
            lemma_index_of_name(self, index as int);
        }
        self.get_field_mut_unchecked_by_index(data, index)
    }

    /// Checked-tier mutable borrow by position: validates the index
    /// and the requested type before handing the slot out.
    pub fn try_get_field_mut_by_index<'a>(
        &self,
        data: &'a mut Vec<Value>,
        index: usize,
        requested: TypeTag,
    ) -> (r: Result<&'a mut Value, DynamicFieldError<()>>)
        requires
            self.wf(),
            old(data)@.len() == self.spec_field_count(),
        ensures
            (index as int) >= self.spec_field_count() ==> {
                &&& final(data)@ == old(data)@
                &&& r matches Err(e)
                &&& e == (DynamicFieldError::<()>::FieldGetIndexOutOfBounds { index })
            },
            (index as int) < self.spec_field_count() && requested != self.field_types@[index as int]
                ==> {
                &&& final(data)@ == old(data)@
                &&& r matches Err(DynamicFieldError::GetInvalidTypeOfField {
                    type_requested: tr,
                    actual_type: at,
                })
                &&& tr@ == spec_tag_name(requested)
                &&& at@ == spec_tag_name(self.field_types@[index as int])
            },
            (index as int) < self.spec_field_count() && requested == self.field_types@[index as int]
                ==> {
                &&& r matches Ok(m)
                &&& *m == old(data)@[index as int]
                &&& final(data)@ == old(data)@.update(index as int, *final(m))
            },
    {
        if index >= self.field_count() {
            return Err(DynamicFieldError::FieldGetIndexOutOfBounds { index });
        }
        let declared = self.field_types[index];
        if requested == declared {
            Ok(self.get_field_mut_unchecked_by_index(data, index))
        } else {
            Err(
                DynamicFieldError::GetInvalidTypeOfField {
                    type_requested: tag_name(requested),
                    actual_type: self.field_type_names[index].clone(),
                },
            )
        }
    }

    /// Checked-tier mutable borrow by name.
    pub fn try_get_field_mut<'a>(&self, data: &'a mut Vec<Value>, name: &str, requested: TypeTag)
        -> (r: Result<&'a mut Value, DynamicFieldError<()>>)
        requires
            self.wf(),
            old(data)@.len() == self.spec_field_count(),
        ensures
            !self.spec_has_field(name@) ==> {
                &&& final(data)@ == old(data)@
                &&& r matches Err(DynamicFieldError::GetFieldNameNotFound { name: nm })
                &&& nm@ == name@
            },
            self.spec_has_field(name@) && requested != self.field_types@[self.spec_index_of_name(
                name@,
            )] ==> {
                &&& final(data)@ == old(data)@
                &&& r matches Err(DynamicFieldError::GetInvalidTypeOfField {
                    type_requested: tr,
                    actual_type: at,
                })
                &&& tr@ == spec_tag_name(requested)
                &&& at@ == spec_tag_name(self.field_types@[self.spec_index_of_name(name@)])
            },
            self.spec_has_field(name@) && requested == self.field_types@[self.spec_index_of_name(
                name@,
            )] ==> {
                &&& r matches Ok(m)
                &&& *m == old(data)@[self.spec_index_of_name(name@)]
                &&& final(data)@ == old(data)@.update(self.spec_index_of_name(name@), *final(m))
            },
    {
        match self.index_of(name) {
            Option::Some(index) => {
                proof {
                    lemma_index_of_name(self, index as int);
                }
                self.try_get_field_mut_by_index(data, index, requested)
            },
            Option::None => Err(
                DynamicFieldError::GetFieldNameNotFound { name: String::from_str(name) },
            ),
        }
    }
}

} // verus!
