//! Runtime field values.
//!
//! A [`Value`] is what a record field holds: a scalar, possibly
//! wrapped (optional, shared, lock-guarded, pointer-like), possibly
//! inside a collection.  Every well-formed value has exactly one
//! [`TypeTag`], recovered by [`tag_of`]; the checked access tiers
//! compare that tag against a field's declared tag before touching
//! storage.
//!
//! In specifications a value is abstracted by its view ([`ValueV`]),
//! which forgets sharing and lock structure and keeps the plain
//! mathematical content.

use vstd::prelude::*;
use std::sync::Arc;
use crate::tags::{Color, GID, Holder, Point, ScalarKind, TypeTag, Vector3D, WrapKind};

verus! {

/// A bare scalar value.  Floating-point scalars are carried as raw
/// bit patterns.
#[derive(Debug, PartialEq, Eq)]
pub enum Scalar {
    U8(u8),
    I8(i8),
    I16(i16),
    U16(u16),
    I32(i32),
    U32(u32),
    F32Bits(u32),
    F64Bits(u64),
    Gid(GID),
    Color(Color),
    Vector3(Vector3D),
    Point2(Point),
    Text(String),
}

/// The mathematical content of a [`Scalar`].
pub enum ScalarV {
    U8(u8),
    I8(i8),
    I16(i16),
    U16(u16),
    I32(i32),
    U32(u32),
    F32Bits(u32),
    F64Bits(u64),
    Gid(GID),
    Color(Color),
    Vector3(Vector3D),
    Point2(Point),
    Text(Seq<char>),
}

impl View for Scalar {
    type V = ScalarV;

    open spec fn view(&self) -> ScalarV {
        match self {
            Scalar::U8(x) => ScalarV::U8(*x),
            Scalar::I8(x) => ScalarV::I8(*x),
            Scalar::I16(x) => ScalarV::I16(*x),
            Scalar::U16(x) => ScalarV::U16(*x),
            Scalar::I32(x) => ScalarV::I32(*x),
            Scalar::U32(x) => ScalarV::U32(*x),
            Scalar::F32Bits(x) => ScalarV::F32Bits(*x),
            Scalar::F64Bits(x) => ScalarV::F64Bits(*x),
            Scalar::Gid(x) => ScalarV::Gid(*x),
            Scalar::Color(x) => ScalarV::Color(*x),
            Scalar::Vector3(x) => ScalarV::Vector3(*x),
            Scalar::Point2(x) => ScalarV::Point2(*x),
            Scalar::Text(s) => ScalarV::Text(s@),
        }
    }
}

/// The base kind of a scalar's content.
pub open spec fn spec_scalar_kind(v: ScalarV) -> ScalarKind {
    match v {
        ScalarV::U8(_) => ScalarKind::U8,
        ScalarV::I8(_) => ScalarKind::I8,
        ScalarV::I16(_) => ScalarKind::I16,
        ScalarV::U16(_) => ScalarKind::U16,
        ScalarV::I32(_) => ScalarKind::I32,
        ScalarV::U32(_) => ScalarKind::U32,
        ScalarV::F32Bits(_) => ScalarKind::F32,
        ScalarV::F64Bits(_) => ScalarKind::F64,
        ScalarV::Gid(_) => ScalarKind::Gid,
        ScalarV::Color(_) => ScalarKind::Color,
        ScalarV::Vector3(_) => ScalarKind::Vector3,
        ScalarV::Point2(_) => ScalarKind::Point2,
        ScalarV::Text(_) => ScalarKind::Text,
    }
}

/// The base kind of a scalar value.
pub fn scalar_kind(s: &Scalar) -> (k: ScalarKind)
    ensures
        k == spec_scalar_kind(s@),
{
    match s {
        Scalar::U8(_) => ScalarKind::U8,
        Scalar::I8(_) => ScalarKind::I8,
        Scalar::I16(_) => ScalarKind::I16,
        Scalar::U16(_) => ScalarKind::U16,
        Scalar::I32(_) => ScalarKind::I32,
        Scalar::U32(_) => ScalarKind::U32,
        Scalar::F32Bits(_) => ScalarKind::F32,
        Scalar::F64Bits(_) => ScalarKind::F64,
        Scalar::Gid(_) => ScalarKind::Gid,
        Scalar::Color(_) => ScalarKind::Color,
        Scalar::Vector3(_) => ScalarKind::Vector3,
        Scalar::Point2(_) => ScalarKind::Point2,
        Scalar::Text(_) => ScalarKind::Text,
    }
}

/// A single (non-collection) field value: a scalar under one of the
/// supported wrappers.  The nullable wrappers record their base kind
/// so an empty value still has a definite type.
#[derive(Debug, PartialEq, Eq)]
pub enum Wrapped {
    /// The bare scalar.
    Plain(Scalar),
    /// An optional scalar.
    Opt(ScalarKind, Option<Box<Scalar>>),
    /// A shared-ownership handle to the scalar.
    Shared(Arc<Scalar>),
    /// A shared handle to a reader/writer-locked scalar.
    SharedRw(Arc<Scalar>),
    /// A shared handle to a mutex-guarded scalar.
    SharedMx(Arc<Scalar>),
    /// A nullable owning pointer to the scalar.
    Ptr(ScalarKind, Option<Box<Scalar>>),
    /// A nullable shared-ownership handle to the scalar.
    SharedOpt(ScalarKind, Option<Arc<Scalar>>),
}

/// The mathematical content of a [`Wrapped`] value.
pub enum WrappedV {
    Plain(ScalarV),
    Opt(ScalarKind, Option<ScalarV>),
    Shared(ScalarV),
    SharedRw(ScalarV),
    SharedMx(ScalarV),
    Ptr(ScalarKind, Option<ScalarV>),
    SharedOpt(ScalarKind, Option<ScalarV>),
}

impl View for Wrapped {
    type V = WrappedV;

    open spec fn view(&self) -> WrappedV {
        match self {
            Wrapped::Plain(s) => WrappedV::Plain(s@),
            Wrapped::Opt(k, o) => WrappedV::Opt(
                *k,
                match o {
                    Option::Some(b) => Option::Some(b@),
                    Option::None => Option::None,
                },
            ),
            Wrapped::Shared(a) => WrappedV::Shared(a@),
            Wrapped::SharedRw(a) => WrappedV::SharedRw(a@),
            Wrapped::SharedMx(a) => WrappedV::SharedMx(a@),
            Wrapped::Ptr(k, o) => WrappedV::Ptr(
                *k,
                match o {
                    Option::Some(b) => Option::Some(b@),
                    Option::None => Option::None,
                },
            ),
            Wrapped::SharedOpt(k, o) => WrappedV::SharedOpt(
                *k,
                match o {
                    Option::Some(a) => Option::Some(a@),
                    Option::None => Option::None,
                },
            ),
        }
    }
}

/// The wrapper kind of a wrapped value.
pub open spec fn spec_wrapped_wrap(w: WrappedV) -> WrapKind {
    match w {
        WrappedV::Plain(_) => WrapKind::Plain,
        WrappedV::Opt(_, _) => WrapKind::Opt,
        WrappedV::Shared(_) => WrapKind::Shared,
        WrappedV::SharedRw(_) => WrapKind::SharedRw,
        WrappedV::SharedMx(_) => WrapKind::SharedMx,
        WrappedV::Ptr(_, _) => WrapKind::Ptr,
        WrappedV::SharedOpt(_, _) => WrapKind::SharedOpt,
    }
}

/// The base scalar kind of a wrapped value.
pub open spec fn spec_wrapped_base(w: WrappedV) -> ScalarKind {
    match w {
        WrappedV::Plain(s) => spec_scalar_kind(s),
        WrappedV::Opt(k, _) => k,
        WrappedV::Shared(s) => spec_scalar_kind(s),
        WrappedV::SharedRw(s) => spec_scalar_kind(s),
        WrappedV::SharedMx(s) => spec_scalar_kind(s),
        WrappedV::Ptr(k, _) => k,
        WrappedV::SharedOpt(k, _) => k,
    }
}

/// A wrapped value is well formed when any payload it carries agrees
/// with its recorded base kind.
pub open spec fn spec_wrapped_wf(w: WrappedV) -> bool {
    match w {
        WrappedV::Plain(_) => true,
        WrappedV::Opt(k, o) => (o matches Option::Some(s) ==> spec_scalar_kind(s) == k),
        WrappedV::Shared(_) => true,
        WrappedV::SharedRw(_) => true,
        WrappedV::SharedMx(_) => true,
        WrappedV::Ptr(k, o) => (o matches Option::Some(s) ==> spec_scalar_kind(s) == k),
        WrappedV::SharedOpt(k, o) => (o matches Option::Some(s) ==> spec_scalar_kind(s) == k),
    }
}

/// A field value: a single wrapped scalar or a collection of them.
/// Collections record their element shape so an empty collection
/// still has a definite type.
#[derive(Debug, PartialEq, Eq)]
pub enum Value {
    /// A single wrapped scalar.
    One(Wrapped),
    /// A collection of wrapped scalars.
    Many(Holder, WrapKind, ScalarKind, Vec<Wrapped>),
    /// A collection of optional wrapped scalars.
    OptMany(Holder, WrapKind, ScalarKind, Vec<Option<Wrapped>>),
}

/// The mathematical content of a [`Value`].
pub enum ValueV {
    One(WrappedV),
    Many(Holder, WrapKind, ScalarKind, Seq<WrappedV>),
    OptMany(Holder, WrapKind, ScalarKind, Seq<Option<WrappedV>>),
}

impl View for Value {
    type V = ValueV;

    open spec fn view(&self) -> ValueV {
        match self {
            Value::One(w) => ValueV::One(w@),
            Value::Many(h, w, b, items) => ValueV::Many(
                *h,
                *w,
                *b,
                items@.map_values(|x: Wrapped| x@),
            ),
            Value::OptMany(h, w, b, items) => ValueV::OptMany(
                *h,
                *w,
                *b,
                items@.map_values(
                    |o: Option<Wrapped>|
                        match o {
                            Option::Some(x) => Option::Some(x@),
                            Option::None => Option::<WrappedV>::None,
                        },
                ),
            ),
        }
    }
}

/// The type of a value: the tag the checked tiers compare against a
/// field's declared tag.
pub open spec fn spec_tag_of(v: ValueV) -> TypeTag {
    match v {
        ValueV::One(w) => TypeTag::Single(spec_wrapped_wrap(w), spec_wrapped_base(w)),
        ValueV::Many(h, w, b, _) => TypeTag::Many(h, w, b),
        ValueV::OptMany(h, w, b, _) => TypeTag::OptMany(h, w, b),
    }
}

/// A value is well formed when every element agrees with the shape
/// the value records for itself.
pub open spec fn spec_value_wf(v: ValueV) -> bool {
    match v {
        ValueV::One(w) => spec_wrapped_wf(w),
        ValueV::Many(h, w, b, items) => forall|i: int|
            0 <= i < items.len() ==> {
                &&& spec_wrapped_wrap(#[trigger] items[i]) == w
                &&& spec_wrapped_base(items[i]) == b
                &&& spec_wrapped_wf(items[i])
            },
        ValueV::OptMany(h, w, b, items) => forall|i: int|
            0 <= i < items.len() ==> (#[trigger] items[i] matches Option::Some(x) ==> {
                &&& spec_wrapped_wrap(x) == w
                &&& spec_wrapped_base(x) == b
                &&& spec_wrapped_wf(x)
            }),
    }
}

/// The wrapper kind of a wrapped value.
pub fn wrapped_wrap(w: &Wrapped) -> (r: WrapKind)
    ensures
        r == spec_wrapped_wrap(w@),
{
    match w {
        Wrapped::Plain(_) => WrapKind::Plain,
        Wrapped::Opt(_, _) => WrapKind::Opt,
        Wrapped::Shared(_) => WrapKind::Shared,
        Wrapped::SharedRw(_) => WrapKind::SharedRw,
        Wrapped::SharedMx(_) => WrapKind::SharedMx,
        Wrapped::Ptr(_, _) => WrapKind::Ptr,
        Wrapped::SharedOpt(_, _) => WrapKind::SharedOpt,
    }
}

/// The base scalar kind of a wrapped value.
pub fn wrapped_base(w: &Wrapped) -> (r: ScalarKind)
    ensures
        r == spec_wrapped_base(w@),
{
    match w {
        Wrapped::Plain(s) => scalar_kind(s),
        Wrapped::Opt(k, _) => *k,
        Wrapped::Shared(a) => scalar_kind(&**a),
        Wrapped::SharedRw(a) => scalar_kind(&**a),
        Wrapped::SharedMx(a) => scalar_kind(&**a),
        Wrapped::Ptr(k, _) => *k,
        Wrapped::SharedOpt(k, _) => *k,
    }
}

/// Computes the type of a value, mirroring what compile-time type
/// identity gives a compiled program.
pub fn tag_of(v: &Value) -> (t: TypeTag)
    ensures
        t == spec_tag_of(v@),
{
    match v {
        Value::One(w) => TypeTag::Single(wrapped_wrap(w), wrapped_base(w)),
        Value::Many(h, w, b, _) => TypeTag::Many(*h, *w, *b),
        Value::OptMany(h, w, b, _) => TypeTag::OptMany(*h, *w, *b),
    }
}

/// The default content of a bare scalar: zero for the numeric kinds,
/// the empty string for text.
pub open spec fn spec_default_scalar(k: ScalarKind) -> ScalarV {
    match k {
        ScalarKind::U8 => ScalarV::U8(0),
        ScalarKind::I8 => ScalarV::I8(0),
        ScalarKind::I16 => ScalarV::I16(0),
        ScalarKind::U16 => ScalarV::U16(0),
        ScalarKind::I32 => ScalarV::I32(0),
        ScalarKind::U32 => ScalarV::U32(0),
        ScalarKind::F32 => ScalarV::F32Bits(0),
        ScalarKind::F64 => ScalarV::F64Bits(0),
        ScalarKind::Gid => ScalarV::Gid(GID { id: 0, ty: 0 }),
        ScalarKind::Color => ScalarV::Color(Color { r: 0, b: 0, g: 0, a: 0 }),
        ScalarKind::Vector3 => ScalarV::Vector3(Vector3D { x_bits: 0, y_bits: 0, z_bits: 0 }),
        ScalarKind::Point2 => ScalarV::Point2(Point { x_bits: 0, y_bits: 0 }),
        ScalarKind::Text => ScalarV::Text(Seq::empty()),
    }
}

/// The default content of a value of the tagged type: zeroed or
/// empty payloads throughout.
pub open spec fn spec_default_value(t: TypeTag) -> ValueV {
    match t {
        TypeTag::Single(WrapKind::Plain, b) => ValueV::One(WrappedV::Plain(spec_default_scalar(b))),
        TypeTag::Single(WrapKind::Opt, b) => ValueV::One(WrappedV::Opt(b, Option::None)),
        TypeTag::Single(WrapKind::Shared, b) => ValueV::One(
            WrappedV::Shared(spec_default_scalar(b)),
        ),
        TypeTag::Single(WrapKind::SharedRw, b) => ValueV::One(
            WrappedV::SharedRw(spec_default_scalar(b)),
        ),
        TypeTag::Single(WrapKind::SharedMx, b) => ValueV::One(
            WrappedV::SharedMx(spec_default_scalar(b)),
        ),
        TypeTag::Single(WrapKind::Ptr, b) => ValueV::One(WrappedV::Ptr(b, Option::None)),
        TypeTag::Single(WrapKind::SharedOpt, b) => ValueV::One(
            WrappedV::SharedOpt(b, Option::None),
        ),
        TypeTag::Many(h, w, b) => ValueV::Many(h, w, b, Seq::empty()),
        TypeTag::OptMany(h, w, b) => ValueV::OptMany(h, w, b, Seq::empty()),
    }
}

/// The default value of a tag is well formed and has that tag.
pub proof fn lemma_default_value_wf(t: TypeTag)
    ensures
        spec_value_wf(spec_default_value(t)),
        spec_tag_of(spec_default_value(t)) == t,
{
}

/// The default scalar of a base kind.
pub fn default_scalar(k: ScalarKind) -> (s: Scalar)
    ensures
        s@ == spec_default_scalar(k),
{
    match k {
        ScalarKind::U8 => Scalar::U8(0),
        ScalarKind::I8 => Scalar::I8(0),
        ScalarKind::I16 => Scalar::I16(0),
        ScalarKind::U16 => Scalar::U16(0),
        ScalarKind::I32 => Scalar::I32(0),
        ScalarKind::U32 => Scalar::U32(0),
        ScalarKind::F32 => Scalar::F32Bits(0),
        ScalarKind::F64 => Scalar::F64Bits(0),
        ScalarKind::Gid => Scalar::Gid(GID { id: 0, ty: 0 }),
        ScalarKind::Color => Scalar::Color(Color { r: 0, b: 0, g: 0, a: 0 }),
        ScalarKind::Vector3 => Scalar::Vector3(Vector3D { x_bits: 0, y_bits: 0, z_bits: 0 }),
        ScalarKind::Point2 => Scalar::Point2(Point { x_bits: 0, y_bits: 0 }),
        ScalarKind::Text => Scalar::Text(String::new()),
    }
}

/// Relies on `std::sync::Arc::clone`: the returned handle shares the
/// original's allocation, so its value equals the original's.
#[verifier::external_body]
pub(crate) fn arc_dup<T>(a: &Arc<T>) -> (r: Arc<T>)
    ensures
        r == *a,
{
    Arc::clone(a)
}

/// Builds the default value of the tagged type: what a freshly
/// instantiated record holds in a field of that type.
pub fn default_value(t: TypeTag) -> (v: Value)
    ensures
        v@ == spec_default_value(t),
{
    match t {
        TypeTag::Single(WrapKind::Plain, b) => Value::One(Wrapped::Plain(default_scalar(b))),
        TypeTag::Single(WrapKind::Opt, b) => Value::One(Wrapped::Opt(b, Option::None)),
        TypeTag::Single(WrapKind::Shared, b) => Value::One(
            Wrapped::Shared(Arc::new(default_scalar(b))),
        ),
        TypeTag::Single(WrapKind::SharedRw, b) => Value::One(
            Wrapped::SharedRw(Arc::new(default_scalar(b))),
        ),
        TypeTag::Single(WrapKind::SharedMx, b) => Value::One(
            Wrapped::SharedMx(Arc::new(default_scalar(b))),
        ),
        TypeTag::Single(WrapKind::Ptr, b) => Value::One(Wrapped::Ptr(b, Option::None)),
        TypeTag::Single(WrapKind::SharedOpt, b) => Value::One(Wrapped::SharedOpt(b, Option::None)),
        TypeTag::Many(h, w, b) => {
            let items: Vec<Wrapped> = Vec::new();
            proof {
                assert(items@.map_values(|x: Wrapped| x@) =~= Seq::<WrappedV>::empty());
            }
            Value::Many(h, w, b, items)
        },
        TypeTag::OptMany(h, w, b) => {
            let items: Vec<Option<Wrapped>> = Vec::new();
            proof {
                assert(items@.map_values(
                    |o: Option<Wrapped>|
                        match o {
                            Option::Some(x) => Option::Some(x@),
                            Option::None => Option::<WrappedV>::None,
                        },
                ) =~= Seq::<Option<WrappedV>>::empty());
            }
            Value::OptMany(h, w, b, items)
        },
    }
}

impl Clone for Scalar {
    /// Cloning preserves a scalar's content.
    fn clone(&self) -> (r: Self)
        ensures
            r@ == self@,
    {
        match self {
            Scalar::U8(x) => Scalar::U8(*x),
            Scalar::I8(x) => Scalar::I8(*x),
            Scalar::I16(x) => Scalar::I16(*x),
            Scalar::U16(x) => Scalar::U16(*x),
            Scalar::I32(x) => Scalar::I32(*x),
            Scalar::U32(x) => Scalar::U32(*x),
            Scalar::F32Bits(x) => Scalar::F32Bits(*x),
            Scalar::F64Bits(x) => Scalar::F64Bits(*x),
            Scalar::Gid(x) => Scalar::Gid(*x),
            Scalar::Color(x) => Scalar::Color(*x),
            Scalar::Vector3(x) => Scalar::Vector3(*x),
            Scalar::Point2(x) => Scalar::Point2(*x),
            Scalar::Text(s) => Scalar::Text(s.clone()),
        }
    }
}

impl Clone for Wrapped {
    /// Cloning preserves a wrapped value's content; shared handles
    /// are duplicated, owned payloads are copied.
    fn clone(&self) -> (r: Self)
        ensures
            r@ == self@,
    {
        match self {
            Wrapped::Plain(s) => Wrapped::Plain(s.clone()),
            Wrapped::Opt(k, o) => Wrapped::Opt(
                *k,
                match o {
                    Option::Some(b) => Option::Some(Box::new((**b).clone())),
                    Option::None => Option::None,
                },
            ),
            Wrapped::Shared(a) => Wrapped::Shared(arc_dup(a)),
            Wrapped::SharedRw(a) => Wrapped::SharedRw(arc_dup(a)),
            Wrapped::SharedMx(a) => Wrapped::SharedMx(arc_dup(a)),
            Wrapped::Ptr(k, o) => Wrapped::Ptr(
                *k,
                match o {
                    Option::Some(b) => Option::Some(Box::new((**b).clone())),
                    Option::None => Option::None,
                },
            ),
            Wrapped::SharedOpt(k, o) => Wrapped::SharedOpt(
                *k,
                match o {
                    Option::Some(a) => Option::Some(arc_dup(a)),
                    Option::None => Option::None,
                },
            ),
        }
    }
}

impl Clone for Value {
    /// Cloning preserves a value's content.
    fn clone(&self) -> (r: Self)
        ensures
            r@ == self@,
    {
        match self {
            Value::One(w) => Value::One(w.clone()),
            Value::Many(h, w, b, items) => {
                let mut out: Vec<Wrapped> = Vec::with_capacity(items.len());
                let mut i: usize = 0;
                while i < items.len()
                    invariant
                        i <= items@.len(),
                        out@.len() == i as int,
                        forall|j: int| 0 <= j < i as int ==> out@[j]@ == items@[j]@,
                    decreases items@.len() - i,
                {
                    out.push(items[i].clone());
                    i = i + 1;
                }
                proof {
                    assert(out@.map_values(|x: Wrapped| x@) =~= items@.map_values(
                        |x: Wrapped| x@,
                    ));
                }
                Value::Many(*h, *w, *b, out)
            },
            Value::OptMany(h, w, b, items) => {
                let mut out: Vec<Option<Wrapped>> = Vec::with_capacity(items.len());
                let mut i: usize = 0;
                while i < items.len()
                    invariant
                        i <= items@.len(),
                        out@.len() == i as int,
                        forall|j: int|
                            0 <= j < i as int ==> (match (#[trigger] out@[j], items@[j]) {
                                (Option::Some(x), Option::Some(y)) => x@ == y@,
                                (Option::None, Option::None) => true,
                                _ => false,
                            }),
                    decreases items@.len() - i,
                {
                    let e: Option<Wrapped> = match &items[i] {
                        Option::Some(x) => Option::Some(x.clone()),
                        Option::None => Option::None,
                    };
                    out.push(e);
                    i = i + 1;
                }
                proof {
                    assert(out@.map_values(
                        |o: Option<Wrapped>|
                            match o {
                                Option::Some(x) => Option::Some(x@),
                                Option::None => Option::<WrappedV>::None,
                            },
                    ) =~= items@.map_values(
                        |o: Option<Wrapped>|
                            match o {
                                Option::Some(x) => Option::Some(x@),
                                Option::None => Option::<WrappedV>::None,
                            },
                    ));
                }
                Value::OptMany(*h, *w, *b, out)
            },
        }
    }
}

} // verus!
