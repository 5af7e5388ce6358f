//! Type identities for the reflection engine.
//!
//! A [`TypeTag`] names one of the value shapes a record field can
//! have: a base scalar, a wrapper around it (optional, shared,
//! lock-guarded, pointer-like), possibly held inside one of a fixed
//! set of collection forms.  Every tag has a size, an alignment (a
//! power of two), a display name, and a flag saying whether values of
//! the type own resources that need teardown.

use vstd::prelude::*;
use vstd::string::*;

verus! {

/// One of the base scalar types a field can hold.
///
/// `F32` and `F64` denote floating-point fields; their values are
/// carried as raw bit patterns, so the engine itself never performs
/// floating-point arithmetic.
#[derive(Clone, Copy, Debug, PartialEq, Eq, Structural, Hash)]
pub enum ScalarKind {
    U8,
    I8,
    I16,
    U16,
    I32,
    U32,
    F32,
    F64,
    Gid,
    Color,
    Vector3,
    Point2,
    Text,
}

/// How a single (non-collection) field value wraps its base scalar.
#[derive(Clone, Copy, Debug, PartialEq, Eq, Structural, Hash)]
pub enum WrapKind {
    /// The bare scalar itself.
    Plain,
    /// An optional scalar.
    Opt,
    /// A shared-ownership handle to the scalar.
    Shared,
    /// A shared handle to a reader/writer-locked scalar.
    SharedRw,
    /// A shared handle to a mutex-guarded scalar.
    SharedMx,
    /// A nullable owning pointer to the scalar.
    Ptr,
    /// A nullable shared-ownership handle to the scalar.
    SharedOpt,
}

/// How a collection of wrapped values is held.
#[derive(Clone, Copy, Debug, PartialEq, Eq, Structural, Hash)]
pub enum Holder {
    /// A plain growable vector.
    Direct,
    /// A shared-ownership handle to the vector.
    SharedH,
    /// A reader/writer lock around the vector.
    RwH,
    /// A mutex around the vector.
    MxH,
}

/// The identity of a field type: what a compile-time type is to a
/// compiled program, this tag is to the reflection engine.
#[derive(Clone, Copy, Debug, PartialEq, Eq, Structural, Hash)]
pub enum TypeTag {
    /// A single wrapped scalar.
    Single(WrapKind, ScalarKind),
    /// A collection of wrapped scalars.
    Many(Holder, WrapKind, ScalarKind),
    /// A collection of optional wrapped scalars.
    OptMany(Holder, WrapKind, ScalarKind),
}

/// A two-part identifier value.
#[derive(Clone, Copy, Debug, PartialEq, Eq, Structural, Hash)]
pub struct GID {
    pub id: u32,
    pub ty: u32,
}

/// An RGBA color value.
#[derive(Clone, Copy, Debug, PartialEq, Eq, Structural, Hash)]
pub struct Color {
    pub r: u8,
    pub b: u8,
    pub g: u8,
    pub a: u8,
}

/// A three-component vector; the components are single-precision
/// floating-point numbers carried as raw bit patterns.
#[derive(Clone, Copy, Debug, PartialEq, Eq, Structural, Hash)]
pub struct Vector3D {
    pub x_bits: u32,
    pub y_bits: u32,
    pub z_bits: u32,
}

/// A two-component point; the components are single-precision
/// floating-point numbers carried as raw bit patterns.
#[derive(Clone, Copy, Debug, PartialEq, Eq, Structural, Hash)]
pub struct Point {
    pub x_bits: u32,
    pub y_bits: u32,
}

/// A zero-sized marker value, useful for exercising shared-ownership
/// fields.
#[derive(Clone, Copy, Debug, PartialEq, Eq, Structural, Hash)]
pub struct TestCrap;

/// Size in bytes of a bare scalar.
pub open spec fn spec_scalar_size(k: ScalarKind) -> usize {
    match k {
        ScalarKind::U8 => 1,
        ScalarKind::I8 => 1,
        ScalarKind::I16 => 2,
        ScalarKind::U16 => 2,
        ScalarKind::I32 => 4,
        ScalarKind::U32 => 4,
        ScalarKind::F32 => 4,
        ScalarKind::F64 => 8,
        ScalarKind::Gid => 8,
        ScalarKind::Color => 4,
        ScalarKind::Vector3 => 12,
        ScalarKind::Point2 => 8,
        ScalarKind::Text => 24,
    }
}

/// Alignment in bytes of a bare scalar (always a power of two).
pub open spec fn spec_scalar_align(k: ScalarKind) -> usize {
    match k {
        ScalarKind::U8 => 1,
        ScalarKind::I8 => 1,
        ScalarKind::I16 => 2,
        ScalarKind::U16 => 2,
        ScalarKind::I32 => 4,
        ScalarKind::U32 => 4,
        ScalarKind::F32 => 4,
        ScalarKind::F64 => 8,
        ScalarKind::Gid => 4,
        ScalarKind::Color => 1,
        ScalarKind::Vector3 => 4,
        ScalarKind::Point2 => 4,
        ScalarKind::Text => 8,
    }
}

/// Size in bytes of a value of the tagged type.
pub open spec fn spec_tag_size(t: TypeTag) -> usize {
    match t {
        TypeTag::Single(WrapKind::Plain, b) => spec_scalar_size(b),
        TypeTag::Single(WrapKind::Opt, b) => (spec_scalar_align(b) + spec_scalar_size(b)) as usize,
        TypeTag::Single(_, _) => 8,
        TypeTag::Many(Holder::Direct, _, _) => 24,
        TypeTag::Many(Holder::SharedH, _, _) => 8,
        TypeTag::Many(Holder::RwH, _, _) => 32,
        TypeTag::Many(Holder::MxH, _, _) => 32,
        TypeTag::OptMany(Holder::Direct, _, _) => 24,
        TypeTag::OptMany(Holder::SharedH, _, _) => 8,
        TypeTag::OptMany(Holder::RwH, _, _) => 32,
        TypeTag::OptMany(Holder::MxH, _, _) => 32,
    }
}

/// Alignment in bytes of a value of the tagged type.
pub open spec fn spec_tag_align(t: TypeTag) -> usize {
    match t {
        TypeTag::Single(WrapKind::Plain, b) => spec_scalar_align(b),
        TypeTag::Single(WrapKind::Opt, b) => spec_scalar_align(b),
        TypeTag::Single(_, _) => 8,
        TypeTag::Many(_, _, _) => 8,
        TypeTag::OptMany(_, _, _) => 8,
    }
}

/// Whether values of the tagged type own resources whose teardown is
/// observable (so a destructor must run for them exactly once).
pub open spec fn spec_tag_needs_drop(t: TypeTag) -> bool {
    match t {
        TypeTag::Single(WrapKind::Plain, b) => b == ScalarKind::Text,
        TypeTag::Single(WrapKind::Opt, b) => b == ScalarKind::Text,
        TypeTag::Single(_, _) => true,
        TypeTag::Many(_, _, _) => true,
        TypeTag::OptMany(_, _, _) => true,
    }
}

#[verifier::when_used_as_spec(spec_scalar_size)]
pub fn scalar_size(k: ScalarKind) -> (s: usize)
    ensures
        s == spec_scalar_size(k),
{
    match k {
        ScalarKind::U8 => 1,
        ScalarKind::I8 => 1,
        ScalarKind::I16 => 2,
        ScalarKind::U16 => 2,
        ScalarKind::I32 => 4,
        ScalarKind::U32 => 4,
        ScalarKind::F32 => 4,
        ScalarKind::F64 => 8,
        ScalarKind::Gid => 8,
        ScalarKind::Color => 4,
        ScalarKind::Vector3 => 12,
        ScalarKind::Point2 => 8,
        ScalarKind::Text => 24,
    }
}

#[verifier::when_used_as_spec(spec_scalar_align)]
pub fn scalar_align(k: ScalarKind) -> (a: usize)
    ensures
        a == spec_scalar_align(k),
{
    match k {
        ScalarKind::U8 => 1,
        ScalarKind::I8 => 1,
        ScalarKind::I16 => 2,
        ScalarKind::U16 => 2,
        ScalarKind::I32 => 4,
        ScalarKind::U32 => 4,
        ScalarKind::F32 => 4,
        ScalarKind::F64 => 8,
        ScalarKind::Gid => 4,
        ScalarKind::Color => 1,
        ScalarKind::Vector3 => 4,
        ScalarKind::Point2 => 4,
        ScalarKind::Text => 8,
    }
}

#[verifier::when_used_as_spec(spec_tag_size)]
pub fn tag_size(t: TypeTag) -> (s: usize)
    ensures
        s == spec_tag_size(t),
{
    match t {
        TypeTag::Single(WrapKind::Plain, b) => scalar_size(b),
        TypeTag::Single(WrapKind::Opt, b) => scalar_align(b) + scalar_size(b),
        TypeTag::Single(_, _) => 8,
        TypeTag::Many(Holder::Direct, _, _) => 24,
        TypeTag::Many(Holder::SharedH, _, _) => 8,
        TypeTag::Many(Holder::RwH, _, _) => 32,
        TypeTag::Many(Holder::MxH, _, _) => 32,
        TypeTag::OptMany(Holder::Direct, _, _) => 24,
        TypeTag::OptMany(Holder::SharedH, _, _) => 8,
        TypeTag::OptMany(Holder::RwH, _, _) => 32,
        TypeTag::OptMany(Holder::MxH, _, _) => 32,
    }
}

#[verifier::when_used_as_spec(spec_tag_align)]
pub fn tag_align(t: TypeTag) -> (a: usize)
    ensures
        a == spec_tag_align(t),
{
    match t {
        TypeTag::Single(WrapKind::Plain, b) => scalar_align(b),
        TypeTag::Single(WrapKind::Opt, b) => scalar_align(b),
        TypeTag::Single(_, _) => 8,
        TypeTag::Many(_, _, _) => 8,
        TypeTag::OptMany(_, _, _) => 8,
    }
}

#[verifier::when_used_as_spec(spec_tag_needs_drop)]
pub fn tag_needs_drop(t: TypeTag) -> (d: bool)
    ensures
        d == spec_tag_needs_drop(t),
{
    match t {
        TypeTag::Single(WrapKind::Plain, b) => matches!(b, ScalarKind::Text),
        TypeTag::Single(WrapKind::Opt, b) => matches!(b, ScalarKind::Text),
        TypeTag::Single(_, _) => true,
        TypeTag::Many(_, _, _) => true,
        TypeTag::OptMany(_, _, _) => true,
    }
}

/// Every tag's alignment is one of 1, 2, 4 or 8, and its size is
/// positive and bounded.
pub proof fn lemma_tag_bounds(t: TypeTag)
    ensures
        1 <= spec_tag_align(t) <= 8,
        spec_tag_align(t) == 1 || spec_tag_align(t) == 2 || spec_tag_align(t) == 4
            || spec_tag_align(t) == 8,
        1 <= spec_tag_size(t) <= 32,
{
}

/// Display name of a bare scalar type.
pub open spec fn spec_scalar_name(k: ScalarKind) -> Seq<char> {
    match k {
        ScalarKind::U8 => "u8"@,
        ScalarKind::I8 => "i8"@,
        ScalarKind::I16 => "i16"@,
        ScalarKind::U16 => "u16"@,
        ScalarKind::I32 => "i32"@,
        ScalarKind::U32 => "u32"@,
        ScalarKind::F32 => "f32"@,
        ScalarKind::F64 => "f64"@,
        ScalarKind::Gid => "GID"@,
        ScalarKind::Color => "Color"@,
        ScalarKind::Vector3 => "Vector3D"@,
        ScalarKind::Point2 => "Point"@,
        ScalarKind::Text => "String"@,
    }
}

pub fn scalar_name(k: ScalarKind) -> (r: &'static str)
    ensures
        r@ == spec_scalar_name(k),
{
    match k {
        ScalarKind::U8 => "u8",
        ScalarKind::I8 => "i8",
        ScalarKind::I16 => "i16",
        ScalarKind::U16 => "u16",
        ScalarKind::I32 => "i32",
        ScalarKind::U32 => "u32",
        ScalarKind::F32 => "f32",
        ScalarKind::F64 => "f64",
        ScalarKind::Gid => "GID",
        ScalarKind::Color => "Color",
        ScalarKind::Vector3 => "Vector3D",
        ScalarKind::Point2 => "Point",
        ScalarKind::Text => "String",
    }
}

/// Display name of a wrapped (non-collection) type.
pub open spec fn spec_wrapped_name(w: WrapKind, b: ScalarKind) -> Seq<char> {
    match w {
        WrapKind::Plain => spec_scalar_name(b),
        WrapKind::Opt => "Option<"@ + spec_scalar_name(b) + ">"@,
        WrapKind::Shared => "Arc<"@ + spec_scalar_name(b) + ">"@,
        WrapKind::SharedRw => "Arc<RwLock<"@ + spec_scalar_name(b) + ">>"@,
        WrapKind::SharedMx => "Arc<Mutex<"@ + spec_scalar_name(b) + ">>"@,
        WrapKind::Ptr => "Option<Box<"@ + spec_scalar_name(b) + ">>"@,
        WrapKind::SharedOpt => "Option<Arc<"@ + spec_scalar_name(b) + ">>"@,
    }
}

/// Display name of the tagged type.
pub open spec fn spec_tag_name(t: TypeTag) -> Seq<char> {
    match t {
        TypeTag::Single(w, b) => spec_wrapped_name(w, b),
        TypeTag::Many(h, w, b) => spec_holder_name(h, "Vec<"@ + spec_wrapped_name(w, b) + ">"@),
        TypeTag::OptMany(h, w, b) => spec_holder_name(
            h,
            "Vec<Option<"@ + spec_wrapped_name(w, b) + ">>"@,
        ),
    }
}

/// Display name of a collection holder around an inner type name.
pub open spec fn spec_holder_name(h: Holder, inner: Seq<char>) -> Seq<char> {
    match h {
        Holder::Direct => inner,
        Holder::SharedH => "Arc<"@ + inner + ">"@,
        Holder::RwH => "RwLock<"@ + inner + ">"@,
        Holder::MxH => "Mutex<"@ + inner + ">"@,
    }
}

fn surround(prefix: &str, mid: &str, suffix: &str) -> (r: String)
    ensures
        r@ == prefix@ + mid@ + suffix@,
{
    let mut s = String::from_str(prefix);
    s.append(mid);
    s.append(suffix);
    s
}

pub fn wrapped_name(w: WrapKind, b: ScalarKind) -> (r: String)
    ensures
        r@ == spec_wrapped_name(w, b),
{
    match w {
        WrapKind::Plain => String::from_str(scalar_name(b)),
        WrapKind::Opt => surround("Option<", scalar_name(b), ">"),
        WrapKind::Shared => surround("Arc<", scalar_name(b), ">"),
        WrapKind::SharedRw => surround("Arc<RwLock<", scalar_name(b), ">>"),
        WrapKind::SharedMx => surround("Arc<Mutex<", scalar_name(b), ">>"),
        WrapKind::Ptr => surround("Option<Box<", scalar_name(b), ">>"),
        WrapKind::SharedOpt => surround("Option<Arc<", scalar_name(b), ">>"),
    }
}

fn holder_name(h: Holder, inner: String) -> (r: String)
    ensures
        r@ == spec_holder_name(h, inner@),
{
    match h {
        Holder::Direct => inner,
        Holder::SharedH => surround("Arc<", inner.as_str(), ">"),
        Holder::RwH => surround("RwLock<", inner.as_str(), ">"),
        Holder::MxH => surround("Mutex<", inner.as_str(), ">"),
    }
}

/// Builds the display name of a tag, mirroring what a compiler's
/// type-name intrinsic would print for the modeled type.
pub fn tag_name(t: TypeTag) -> (r: String)
    ensures
        r@ == spec_tag_name(t),
{
    match t {
        TypeTag::Single(w, b) => wrapped_name(w, b),
        TypeTag::Many(h, w, b) => {
            let elem = wrapped_name(w, b);
            holder_name(h, surround("Vec<", elem.as_str(), ">"))
        },
        TypeTag::OptMany(h, w, b) => {
            let elem = wrapped_name(w, b);
            holder_name(h, surround("Vec<Option<", elem.as_str(), ">>"))
        },
    }
}

} // verus!
