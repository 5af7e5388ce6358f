//! The type-name adapter.
//!
//! Translates a foreign type-name string into a layout descriptor.
//! Three lexical forms are recognized: a shared-ownership wrapper
//! written `class SharedPointer<inner>`, a raw-pointer form written
//! `inner*`, and a bare value form `inner`, where `inner` is one of a
//! fixed vocabulary of primitive and value-struct names.  An
//! unrecognized name is a fatal, reported translation error; the
//! engine itself never sees these strings, only the resulting
//! descriptor.

use vstd::prelude::*;
use vstd::string::StringExecFns;
use vstd::string::StrSliceExecFns;
use crate::layouts::StaticTypeLayout;
use crate::tags::{spec_tag_name, tag_name, ScalarKind, TypeTag, WrapKind};

verus! {

/// Character-for-character equality of two string slices.
fn str_eq(a: &str, b: &str) -> (r: bool)
    ensures
        r == (a@ == b@),
{
    let n = a.unicode_len();
    let m = b.unicode_len();
    if n != m {
        return false;
    }
    let mut i: usize = 0;
    while i < n
        invariant
            n == a@.len(),
            n == b@.len(),
            i <= n,
            forall|j: int| 0 <= j < i as int ==> a@[j] == b@[j],
        decreases n - i,
    {
        if a.get_char(i) != b.get_char(i) {
            return false;
        }
        i = i + 1;
    }
    proof {
        assert(a@ =~= b@);
    }
    true
}

/// The base-name vocabulary: which scalar kind a bare foreign type
/// name denotes, if any.  The wide and narrow string names denote the
/// same text type, and the two `long` forms the same 32-bit integers,
/// as the foreign type system's conventions prescribe.
pub open spec fn spec_parse_base(s: Seq<char>) -> Option<ScalarKind> {
    if s == "unsigned char"@ {
        Option::Some(ScalarKind::U8)
    } else if s == "char"@ {
        Option::Some(ScalarKind::I8)
    } else if s == "short"@ {
        Option::Some(ScalarKind::I16)
    } else if s == "unsigned short"@ {
        Option::Some(ScalarKind::U16)
    } else if s == "int"@ {
        Option::Some(ScalarKind::I32)
    } else if s == "unsigned int"@ {
        Option::Some(ScalarKind::U32)
    } else if s == "long"@ {
        Option::Some(ScalarKind::I32)
    } else if s == "unsigned long"@ {
        Option::Some(ScalarKind::U32)
    } else if s == "gid"@ {
        Option::Some(ScalarKind::Gid)
    } else if s == "float"@ {
        Option::Some(ScalarKind::F32)
    } else if s == "double"@ {
        Option::Some(ScalarKind::F64)
    } else if s == "std::string"@ {
        Option::Some(ScalarKind::Text)
    } else if s == "std::wstring"@ {
        Option::Some(ScalarKind::Text)
    } else if s == "class Vector3D"@ {
        Option::Some(ScalarKind::Vector3)
    } else if s == "class Color"@ {
        Option::Some(ScalarKind::Color)
    } else if s == "class Point"@ {
        Option::Some(ScalarKind::Point2)
    } else {
        Option::None
    }
}

/// Looks a bare foreign type name up in the vocabulary.
pub fn parse_base(s: &str) -> (r: Option<ScalarKind>)
    ensures
        r == spec_parse_base(s@),
{
    if str_eq(s, "unsigned char") {
        Option::Some(ScalarKind::U8)
    } else if str_eq(s, "char") {
        Option::Some(ScalarKind::I8)
    } else if str_eq(s, "short") {
        Option::Some(ScalarKind::I16)
    } else if str_eq(s, "unsigned short") {
        Option::Some(ScalarKind::U16)
    } else if str_eq(s, "int") {
        Option::Some(ScalarKind::I32)
    } else if str_eq(s, "unsigned int") {
        Option::Some(ScalarKind::U32)
    } else if str_eq(s, "long") {
        Option::Some(ScalarKind::I32)
    } else if str_eq(s, "unsigned long") {
        Option::Some(ScalarKind::U32)
    } else if str_eq(s, "gid") {
        Option::Some(ScalarKind::Gid)
    } else if str_eq(s, "float") {
        Option::Some(ScalarKind::F32)
    } else if str_eq(s, "double") {
        Option::Some(ScalarKind::F64)
    } else if str_eq(s, "std::string") {
        Option::Some(ScalarKind::Text)
    } else if str_eq(s, "std::wstring") {
        Option::Some(ScalarKind::Text)
    } else if str_eq(s, "class Vector3D") {
        Option::Some(ScalarKind::Vector3)
    } else if str_eq(s, "class Color") {
        Option::Some(ScalarKind::Color)
    } else if str_eq(s, "class Point") {
        Option::Some(ScalarKind::Point2)
    } else {
        Option::None
    }
}

/// Which type identity a foreign type-name string denotes, if any.
/// The shared-ownership form takes precedence, then the raw-pointer
/// suffix, then the bare form; each maps its inner name through the
/// base vocabulary.
pub open spec fn spec_parse_kitype(s: Seq<char>) -> Option<TypeTag> {
    let p = "class SharedPointer"@;
    if s.len() >= p.len() && s.subrange(0, p.len() as int) == p {
        if s.len() >= p.len() + 2 && s[p.len() as int] == '<' && s.last() == '>' {
            match spec_parse_base(s.subrange(p.len() as int + 1, s.len() as int - 1)) {
                Option::Some(b) => Option::Some(TypeTag::Single(WrapKind::SharedOpt, b)),
                Option::None => Option::None,
            }
        } else {
            Option::None
        }
    } else if s.len() >= 1 && s.last() == '*' {
        match spec_parse_base(s.subrange(0, s.len() as int - 1)) {
            Option::Some(b) => Option::Some(TypeTag::Single(WrapKind::Ptr, b)),
            Option::None => Option::None,
        }
    } else {
        match spec_parse_base(s) {
            Option::Some(b) => Option::Some(TypeTag::Single(WrapKind::Plain, b)),
            Option::None => Option::None,
        }
    }
}

/// Parses a foreign type-name string into a type identity, or
/// nothing if the name is not recognized.
pub fn parse_kitype(ctype: &str) -> (r: Option<TypeTag>)
    ensures
        r == spec_parse_kitype(ctype@),
{
    let p = "class SharedPointer";
    proof {
        reveal_strlit("class SharedPointer");
    }
    let plen = p.unicode_len();
    let n = ctype.unicode_len();
    if n >= plen && str_eq(ctype.substring_char(0, plen), p) {
        if n >= plen + 2 && ctype.get_char(plen) == '<' && ctype.get_char(n - 1) == '>' {
            let inner = ctype.substring_char(plen + 1, n - 1);
            match parse_base(inner) {
                Option::Some(b) => Option::Some(TypeTag::Single(WrapKind::SharedOpt, b)),
                Option::None => Option::None,
            }
        } else {
            Option::None
        }
    } else if n >= 1 && ctype.get_char(n - 1) == '*' {
        let inner = ctype.substring_char(0, n - 1);
        match parse_base(inner) {
            Option::Some(b) => Option::Some(TypeTag::Single(WrapKind::Ptr, b)),
            Option::None => Option::None,
        }
    } else {
        match parse_base(ctype) {
            Option::Some(b) => Option::Some(TypeTag::Single(WrapKind::Plain, b)),
            Option::None => Option::None,
        }
    }
}

/// The engine-side type name a foreign type name translates to:
/// the display name of the denoted type identity, or `unknown`.
pub open spec fn spec_kitype_name(s: Seq<char>) -> Seq<char> {
    match spec_parse_kitype(s) {
        Option::Some(t) => spec_tag_name(t),
        Option::None => "unknown"@,
    }
}

/// Translates a foreign type-name string into the engine-side name
/// of the denoted type, or `unknown` if the name is not recognized.
pub fn kitype_to_rusttype(ctype: &str) -> (r: String)
    ensures
        r@ == spec_kitype_name(ctype@),
{
    match parse_kitype(ctype) {
        Option::Some(t) => tag_name(t),
        Option::None => String::from_str("unknown"),
    }
}

/// Translates a foreign type-name string into a layout descriptor.
/// An unrecognized name is a fatal translation error, ruled out here
/// up front; [`try_kitype_to_dyn_type_layout`] reports it dynamically
/// instead.
pub fn kitype_to_dyn_type_layout(ctype: &str) -> (r: StaticTypeLayout)
    requires
        spec_parse_kitype(ctype@) matches Option::Some(_),
    ensures
        r.wf(),
        Option::Some(r.type_tag) == spec_parse_kitype(ctype@),
{
    match parse_kitype(ctype) {
        Option::Some(t) => StaticTypeLayout::of(t),
        Option::None => vstd::pervasive::unreached(),
    }
}

/// Translates a foreign type-name string into a layout descriptor,
/// reporting an unrecognized name as the absence of a result.
pub fn try_kitype_to_dyn_type_layout(ctype: &str) -> (r: Option<StaticTypeLayout>)
    ensures
        match r {
            Option::Some(l) => l.wf() && spec_parse_kitype(ctype@) == Option::Some(l.type_tag),
            Option::None => spec_parse_kitype(ctype@) matches Option::None,
        },
{
    match parse_kitype(ctype) {
        Option::Some(t) => Option::Some(StaticTypeLayout::of(t)),
        Option::None => Option::None,
    }
}

} // verus!
