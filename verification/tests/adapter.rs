use dynamic_types::adapter::{
    kitype_to_dyn_type_layout, kitype_to_rusttype, parse_base, parse_kitype,
    try_kitype_to_dyn_type_layout,
};
use dynamic_types::tags::{ScalarKind, TypeTag, WrapKind};

#[test]
fn bare_names_translate_to_value_types() {
    assert_eq!(kitype_to_rusttype("unsigned char"), "u8");
    assert_eq!(kitype_to_rusttype("char"), "i8");
    assert_eq!(kitype_to_rusttype("short"), "i16");
    assert_eq!(kitype_to_rusttype("unsigned short"), "u16");
    assert_eq!(kitype_to_rusttype("int"), "i32");
    assert_eq!(kitype_to_rusttype("unsigned int"), "u32");
    assert_eq!(kitype_to_rusttype("long"), "i32");
    assert_eq!(kitype_to_rusttype("unsigned long"), "u32");
    assert_eq!(kitype_to_rusttype("gid"), "GID");
    assert_eq!(kitype_to_rusttype("float"), "f32");
    assert_eq!(kitype_to_rusttype("double"), "f64");
    assert_eq!(kitype_to_rusttype("std::string"), "String");
    assert_eq!(kitype_to_rusttype("std::wstring"), "String");
    assert_eq!(kitype_to_rusttype("class Vector3D"), "Vector3D");
    assert_eq!(kitype_to_rusttype("class Color"), "Color");
    assert_eq!(kitype_to_rusttype("class Point"), "Point");
}

#[test]
fn pointer_suffix_translates_to_nullable_owning_pointers() {
    assert_eq!(kitype_to_rusttype("int*"), "Option<Box<i32>>");
    assert_eq!(kitype_to_rusttype("float*"), "Option<Box<f32>>");
    assert_eq!(kitype_to_rusttype("gid*"), "Option<Box<GID>>");
    assert_eq!(
        parse_kitype("std::string*"),
        Some(TypeTag::Single(WrapKind::Ptr, ScalarKind::Text))
    );
}

#[test]
fn shared_pointer_form_translates_to_nullable_shared_handles() {
    assert_eq!(kitype_to_rusttype("class SharedPointer<unsigned int>"), "Option<Arc<u32>>");
    assert_eq!(kitype_to_rusttype("class SharedPointer<class Point>"), "Option<Arc<Point>>");
    assert_eq!(
        parse_kitype("class SharedPointer<double>"),
        Some(TypeTag::Single(WrapKind::SharedOpt, ScalarKind::F64))
    );
}

#[test]
fn unrecognized_names_are_reported() {
    assert_eq!(kitype_to_rusttype("wobble"), "unknown");
    assert_eq!(kitype_to_rusttype("class SharedPointer<wobble>"), "unknown");
    assert_eq!(kitype_to_rusttype("class SharedPointer<int"), "unknown");
    assert_eq!(kitype_to_rusttype(""), "unknown");
    assert_eq!(parse_base("in"), None);
    assert_eq!(parse_base("intx"), None);
    assert!(try_kitype_to_dyn_type_layout("wobble*").is_none());
}

#[test]
fn translated_descriptors_carry_the_layout_of_their_type() {
    let d = kitype_to_dyn_type_layout("double");
    assert_eq!(d.type_tag, TypeTag::Single(WrapKind::Plain, ScalarKind::F64));
    assert_eq!(d.size, 8);
    assert_eq!(d.align, 8);
    let p = kitype_to_dyn_type_layout("unsigned short*");
    assert_eq!(p.type_tag, TypeTag::Single(WrapKind::Ptr, ScalarKind::U16));
    assert_eq!(p.size, 8);
    assert!(p.drop_flag);
    let s = try_kitype_to_dyn_type_layout("class SharedPointer<std::string>")
        .expect("a vocabulary name must translate");
    assert_eq!(s.type_tag, TypeTag::Single(WrapKind::SharedOpt, ScalarKind::Text));
    assert_eq!(s.name, "Option<Arc<String>>");
}
