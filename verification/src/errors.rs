//! Error types of the engine.
//!
//! The checked field-access tier reports failures through
//! [`DynamicFieldError`]; every variant carries enough context to
//! render a diagnostic, and the write-side variants hand the value
//! that could not be stored back to the caller so no data is lost.
//! Construction-time failures (a repeated field name, an unknown
//! schema name, a size mismatch on consuming a record) are
//! [`DynamicTypeError`] values.

use vstd::prelude::*;

verus! {

/// A failure of a checked field access.
///
/// `T` is the value type of the write-side operations; read-side
/// operations use `T = ()`.
#[derive(Debug, PartialEq, Eq)]
pub enum DynamicFieldError<T> {
    /// A read was requested with a field index past the schema's
    /// last field.
    FieldGetIndexOutOfBounds { index: usize },
    /// A read named a field the schema does not contain.
    GetFieldNameNotFound { name: String },
    /// A read requested a type other than the field's declared type.
    GetInvalidTypeOfField { type_requested: String, actual_type: String },
    /// A write named a field the schema does not contain; the value
    /// is handed back.
    SetFieldNameNotFound { name: String, value: T },
    /// A write was requested with a field index past the schema's
    /// last field; the value is handed back.
    FieldSetIndexOutOfBounds { value: T, index: usize },
    /// A write carried a value of a type other than the field's
    /// declared type; the value is handed back.
    SetInvalidTypeOfField { value: T, type_requested: String, actual_type: String },
}

/// An unrecoverable construction-time failure: a programming error
/// in how a schema, catalog entry or consuming cast was declared.
#[derive(Debug, PartialEq, Eq)]
pub enum DynamicTypeError {
    /// Two fields of one schema share a name.
    DuplicateFieldName { name: String },
    /// No schema is registered under the requested name.
    UnknownSchemaName { name: String },
    /// A record was consumed as a type whose size differs from the
    /// schema's total size.
    SizeMismatchOnConsume { data_size: usize, target_size: usize },
}

} // verus!
