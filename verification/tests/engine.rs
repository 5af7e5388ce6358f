use std::sync::Arc;

use dynamic_types::errors::{DynamicFieldError, DynamicTypeError};
use dynamic_types::layouts::StaticTypeLayout;
use dynamic_types::registry::TypeRegistry;
use dynamic_types::schema::DynamicTypeLayout;
use dynamic_types::tags::{tag_align, Holder, ScalarKind, TypeTag, WrapKind};
use dynamic_types::values::{Scalar, Value, Wrapped};

fn plain(b: ScalarKind) -> TypeTag {
    TypeTag::Single(WrapKind::Plain, b)
}

fn descriptor(t: TypeTag) -> Arc<StaticTypeLayout> {
    Arc::new(StaticTypeLayout::of(t))
}

/// The seven-field layout the engine is exercised with: two bytes,
/// an integer, a float, a text field, an integer sequence, and a
/// shared-ownership field.
fn test_fields() -> Vec<(String, Arc<StaticTypeLayout>)> {
    vec![
        ("o".to_string(), descriptor(plain(ScalarKind::U8))),
        ("k".to_string(), descriptor(plain(ScalarKind::U8))),
        ("a".to_string(), descriptor(plain(ScalarKind::I32))),
        ("b".to_string(), descriptor(plain(ScalarKind::F32))),
        ("c".to_string(), descriptor(plain(ScalarKind::Text))),
        (
            "d".to_string(),
            descriptor(TypeTag::Many(Holder::Direct, WrapKind::Plain, ScalarKind::I32)),
        ),
        ("e".to_string(), descriptor(TypeTag::Single(WrapKind::Shared, ScalarKind::U8))),
    ]
}

fn test_layout() -> DynamicTypeLayout {
    DynamicTypeLayout::new("Test".to_string(), &test_fields())
}

fn int_seq(values: &[i32]) -> Value {
    Value::Many(
        Holder::Direct,
        WrapKind::Plain,
        ScalarKind::I32,
        values.iter().map(|v| Wrapped::Plain(Scalar::I32(*v))).collect(),
    )
}

#[test]
fn offsets_are_aligned_and_disjoint() {
    let layout = test_layout();
    let n = layout.field_names.len();
    for i in 0..n {
        let off = layout.field_offsets[i];
        let align = tag_align(layout.field_types[i]);
        assert_eq!(off % align, 0);
        if i + 1 < n {
            assert!(layout.field_offsets[i + 1] >= off + layout.field_sizes[i]);
        }
        assert!(off + layout.field_sizes[i] <= layout.total_size);
    }
}

#[test]
fn offsets_follow_the_packing_rule() {
    let layout = test_layout();
    assert_eq!(layout.field_offsets, vec![0, 1, 4, 8, 16, 40, 64]);
    assert_eq!(layout.field_sizes, vec![1, 1, 4, 4, 24, 24, 8]);
    assert_eq!(layout.total_size, 72);
}

#[test]
fn empty_schema_has_zero_size() {
    let layout = DynamicTypeLayout::new("Empty".to_string(), &Vec::new());
    assert_eq!(layout.total_size, 0);
    let rec = dynamic_types::instance::DynamicStruct::new(Arc::new(layout));
    assert_eq!(rec.size_of(), 0);
    let values = rec.try_cast(0).expect("an empty record casts to a zero-sized type");
    assert!(values.is_empty());
}

#[test]
fn duplicate_field_name_is_rejected() {
    let fields = vec![
        ("x".to_string(), descriptor(plain(ScalarKind::U8))),
        ("y".to_string(), descriptor(plain(ScalarKind::I32))),
        ("x".to_string(), descriptor(plain(ScalarKind::F64))),
    ];
    match DynamicTypeLayout::try_new("Dup".to_string(), &fields) {
        Err(DynamicTypeError::DuplicateFieldName { name }) => assert_eq!(name, "x"),
        other => panic!("expected a duplicate-name error, got {:?}", other.map(|_| ())),
    }
}

#[test]
fn fresh_record_reads_defaults() {
    let mut registry = TypeRegistry::default();
    registry.add_dyn(test_layout());
    let rec = registry.create_dynamic("Test");
    assert_eq!(
        rec.try_clone_field("o", plain(ScalarKind::U8)),
        Ok(Value::One(Wrapped::Plain(Scalar::U8(0))))
    );
    assert_eq!(
        rec.try_clone_field("a", plain(ScalarKind::I32)),
        Ok(Value::One(Wrapped::Plain(Scalar::I32(0))))
    );
    assert_eq!(
        rec.try_clone_field("b", plain(ScalarKind::F32)),
        Ok(Value::One(Wrapped::Plain(Scalar::F32Bits(0.0f32.to_bits()))))
    );
    assert_eq!(
        rec.try_clone_field("c", plain(ScalarKind::Text)),
        Ok(Value::One(Wrapped::Plain(Scalar::Text(String::new()))))
    );
    assert_eq!(
        rec.try_clone_field("d", TypeTag::Many(Holder::Direct, WrapKind::Plain, ScalarKind::I32)),
        Ok(int_seq(&[]))
    );
    assert_eq!(
        rec.try_clone_field("e", TypeTag::Single(WrapKind::Shared, ScalarKind::U8)),
        Ok(Value::One(Wrapped::Shared(Arc::new(Scalar::U8(0)))))
    );
}

#[test]
fn set_get_round_trip_for_each_kind() {
    let mut registry = TypeRegistry::default();
    registry.add_dyn(test_layout());
    let mut rec = registry.create_dynamic("Test");

    let cases: Vec<(&str, TypeTag, Value)> = vec![
        ("o", plain(ScalarKind::U8), Value::One(Wrapped::Plain(Scalar::U8(200)))),
        ("a", plain(ScalarKind::I32), Value::One(Wrapped::Plain(Scalar::I32(1337)))),
        (
            "b",
            plain(ScalarKind::F32),
            Value::One(Wrapped::Plain(Scalar::F32Bits(5.0f32.to_bits()))),
        ),
        (
            "c",
            plain(ScalarKind::Text),
            Value::One(Wrapped::Plain(Scalar::Text("Hello World".to_string()))),
        ),
        (
            "d",
            TypeTag::Many(Holder::Direct, WrapKind::Plain, ScalarKind::I32),
            int_seq(&[1, 2, 3, 4, 5, 6, 7, 8, 9, 10]),
        ),
        (
            "e",
            TypeTag::Single(WrapKind::Shared, ScalarKind::U8),
            Value::One(Wrapped::Shared(Arc::new(Scalar::U8(9)))),
        ),
    ];
    for (name, tag, value) in cases {
        assert_eq!(rec.try_set_field(name, value.clone()), Ok(()));
        assert_eq!(rec.try_clone_field(name, tag), Ok(value));
    }
    assert_eq!(
        rec.try_clone_field("b", plain(ScalarKind::F32)),
        Ok(Value::One(Wrapped::Plain(Scalar::F32Bits(5.0f32.to_bits()))))
    );
}

#[test]
fn unchecked_tier_reads_and_writes_by_index() {
    let mut rec = dynamic_types::instance::DynamicStruct::new(Arc::new(test_layout()));
    rec.set_field_by_index(Value::One(Wrapped::Plain(Scalar::I32(-7))), 2);
    assert_eq!(
        rec.clone_field_by_index(2, plain(ScalarKind::I32)),
        Value::One(Wrapped::Plain(Scalar::I32(-7)))
    );
    assert_eq!(
        rec.get_field_ref_by_index(2, plain(ScalarKind::I32)),
        &Value::One(Wrapped::Plain(Scalar::I32(-7)))
    );
    let slot = rec.get_field_mut_by_index(2, plain(ScalarKind::I32));
    *slot = Value::One(Wrapped::Plain(Scalar::I32(42)));
    assert_eq!(
        rec.clone_field("a", plain(ScalarKind::I32)),
        Value::One(Wrapped::Plain(Scalar::I32(42)))
    );
}

#[test]
fn checked_mutable_borrow_edits_in_place() {
    let mut rec = dynamic_types::instance::DynamicStruct::new(Arc::new(test_layout()));
    {
        let slot = rec
            .try_get_field_mut("a", plain(ScalarKind::I32))
            .expect("the declared type must be accepted");
        assert_eq!(slot, &mut Value::One(Wrapped::Plain(Scalar::I32(0))));
        *slot = Value::One(Wrapped::Plain(Scalar::I32(55)));
    }
    assert_eq!(
        rec.try_clone_field("a", plain(ScalarKind::I32)),
        Ok(Value::One(Wrapped::Plain(Scalar::I32(55))))
    );
    match rec.try_get_field_mut("a", plain(ScalarKind::F32)) {
        Err(DynamicFieldError::GetInvalidTypeOfField { .. }) => {},
        other => panic!("expected a type-mismatch error, got {:?}", other),
    }
    match rec.try_get_field_mut_by_index(99, plain(ScalarKind::F32)) {
        Err(DynamicFieldError::FieldGetIndexOutOfBounds { index }) => assert_eq!(index, 99),
        other => panic!("expected an out-of-bounds error, got {:?}", other),
    }
}

#[test]
fn schema_level_access_works_on_external_storage() {
    let layout = test_layout();
    let mut storage: Vec<Value> = layout.field_defaults.clone();
    layout.set_field(&mut storage, "k", Value::One(Wrapped::Plain(Scalar::U8(17))));
    assert_eq!(
        layout.clone_field(&storage, "k", plain(ScalarKind::U8)),
        Value::One(Wrapped::Plain(Scalar::U8(17)))
    );
    assert_eq!(
        layout.get_field_ref_unchecked_by_index(&storage, 1),
        &Value::One(Wrapped::Plain(Scalar::U8(17)))
    );
    assert_eq!(layout.index_of("k"), Some(1));
    assert_eq!(layout.index_of("zz"), None);
    assert_eq!(layout.offset_of(4), 16);
    assert_eq!(layout.size_of(4), 24);
    assert_eq!(layout.type_identity_of(4), plain(ScalarKind::Text));
}

#[test]
fn wrong_type_request_is_an_error_and_returns_no_value() {
    let mut rec = dynamic_types::instance::DynamicStruct::new(Arc::new(test_layout()));
    match rec.try_clone_field("a", plain(ScalarKind::F32)) {
        Err(DynamicFieldError::GetInvalidTypeOfField { type_requested, actual_type }) => {
            assert_eq!(type_requested, "f32");
            assert_eq!(actual_type, "i32");
        },
        other => panic!("expected a type-mismatch error, got {:?}", other),
    }
    match rec.try_get_field_ref("a", plain(ScalarKind::F32)) {
        Err(DynamicFieldError::GetInvalidTypeOfField { .. }) => {},
        other => panic!("expected a type-mismatch error, got {:?}", other),
    }
    let wrong = Value::One(Wrapped::Plain(Scalar::F32Bits(1.0f32.to_bits())));
    match rec.try_set_field("a", wrong.clone()) {
        Err(DynamicFieldError::SetInvalidTypeOfField { value, type_requested, actual_type }) => {
            assert_eq!(value, wrong);
            assert_eq!(type_requested, "f32");
            assert_eq!(actual_type, "i32");
        },
        other => panic!("expected a type-mismatch error, got {:?}", other.map(|_| ())),
    }
    assert_eq!(
        rec.try_clone_field("a", plain(ScalarKind::I32)),
        Ok(Value::One(Wrapped::Plain(Scalar::I32(0))))
    );
}

#[test]
fn missing_name_and_bad_index_are_errors() {
    let mut rec = dynamic_types::instance::DynamicStruct::new(Arc::new(test_layout()));
    match rec.try_clone_field("nope", plain(ScalarKind::U8)) {
        Err(DynamicFieldError::GetFieldNameNotFound { name }) => assert_eq!(name, "nope"),
        other => panic!("expected a name-not-found error, got {:?}", other),
    }
    match rec.try_clone_field_by_index(99, plain(ScalarKind::U8)) {
        Err(DynamicFieldError::FieldGetIndexOutOfBounds { index }) => assert_eq!(index, 99),
        other => panic!("expected an out-of-bounds error, got {:?}", other),
    }
    let val = Value::One(Wrapped::Plain(Scalar::U8(3)));
    match rec.try_set_field("nope", val.clone()) {
        Err(DynamicFieldError::SetFieldNameNotFound { name, value }) => {
            assert_eq!(name, "nope");
            assert_eq!(value, val);
        },
        other => panic!("expected a name-not-found error, got {:?}", other.map(|_| ())),
    }
    match rec.try_set_field_by_index(val.clone(), 99) {
        Err(DynamicFieldError::FieldSetIndexOutOfBounds { value, index }) => {
            assert_eq!(value, val);
            assert_eq!(index, 99);
        },
        other => panic!("expected an out-of-bounds error, got {:?}", other.map(|_| ())),
    }
}

#[test]
fn cast_with_wrong_size_fails_and_leaves_the_record_intact() {
    let mut rec = dynamic_types::instance::DynamicStruct::new(Arc::new(test_layout()));
    rec.set_field("a", Value::One(Wrapped::Plain(Scalar::I32(1337))));
    let rec = match rec.try_cast(9999) {
        Err((DynamicTypeError::SizeMismatchOnConsume { data_size, target_size }, rec)) => {
            assert_eq!(data_size, 72);
            assert_eq!(target_size, 9999);
            rec
        },
        Ok(_) => panic!("a mismatched cast must not succeed"),
        Err((other, _)) => panic!("expected a size-mismatch error, got {:?}", other),
    };
    assert_eq!(
        rec.try_clone_field("a", plain(ScalarKind::I32)),
        Ok(Value::One(Wrapped::Plain(Scalar::I32(1337))))
    );
}

#[test]
fn cast_with_matching_size_transfers_values_without_double_free() {
    let mut rec = dynamic_types::instance::DynamicStruct::new(Arc::new(test_layout()));
    rec.set_field("a", Value::One(Wrapped::Plain(Scalar::I32(1337))));
    let shared = Arc::new(Scalar::U8(5));
    rec.set_field("e", Value::One(Wrapped::Shared(shared.clone())));
    assert_eq!(Arc::strong_count(&shared), 2);
    let size = rec.size_of();
    let values = match rec.try_cast(size) {
        Ok(values) => values,
        Err((e, _)) => panic!("a matching cast must succeed, got {:?}", e),
    };
    assert_eq!(values.len(), 7);
    assert_eq!(values[2], Value::One(Wrapped::Plain(Scalar::I32(1337))));
    assert_eq!(values[6], Value::One(Wrapped::Shared(shared.clone())));
    // The record was consumed; the surviving values hold the one
    // remaining engine-side reference.
    assert_eq!(Arc::strong_count(&shared), 2);
    drop(values);
    assert_eq!(Arc::strong_count(&shared), 1);
}

#[test]
fn overwriting_a_field_does_not_destroy_the_previous_occupant() {
    let mut rec = dynamic_types::instance::DynamicStruct::new(Arc::new(test_layout()));
    let first = Arc::new(Scalar::U8(1));
    rec.set_field("e", Value::One(Wrapped::Shared(first.clone())));
    assert_eq!(Arc::strong_count(&first), 2);
    let second = Arc::new(Scalar::U8(2));
    rec.set_field("e", Value::One(Wrapped::Shared(second.clone())));
    // Placement overwrite: the first occupant was not destroyed, its
    // reference deliberately leaks with the record's slot image.
    assert_eq!(Arc::strong_count(&first), 2);
    assert_eq!(Arc::strong_count(&second), 2);
}

#[test]
fn registrations_under_distinct_names_are_both_visible() {
    let mut registry = TypeRegistry::default();
    let a = DynamicTypeLayout::new(
        "A".to_string(),
        &vec![("x".to_string(), descriptor(plain(ScalarKind::U8)))],
    );
    let b = DynamicTypeLayout::new(
        "B".to_string(),
        &vec![("y".to_string(), descriptor(plain(ScalarKind::I32)))],
    );
    registry.add_dyn(a);
    registry.add_dyn(b);
    let a_back = registry.get_dynamic_layout("A").expect("A must be registered");
    let b_back = registry.get_dynamic_layout("B").expect("B must be registered");
    assert_eq!(a_back.name, "A");
    assert_eq!(a_back.field_names, vec!["x".to_string()]);
    assert_eq!(b_back.name, "B");
    assert_eq!(b_back.field_names, vec!["y".to_string()]);
    assert!(registry.get_dynamic_layout("C").is_none());
}

#[test]
fn registering_a_name_again_replaces_its_schema() {
    let mut registry = TypeRegistry::default();
    registry.add_dyn(DynamicTypeLayout::new(
        "S".to_string(),
        &vec![("x".to_string(), descriptor(plain(ScalarKind::U8)))],
    ));
    registry.add_dyn(DynamicTypeLayout::new(
        "S".to_string(),
        &vec![
            ("x".to_string(), descriptor(plain(ScalarKind::U8))),
            ("y".to_string(), descriptor(plain(ScalarKind::I32))),
        ],
    ));
    let s = registry.get_dynamic_layout("S").expect("S must be registered");
    assert_eq!(s.field_names.len(), 2);
}

#[test]
fn unknown_schema_name_is_reported_on_instantiation() {
    let registry = TypeRegistry::default();
    match registry.try_create_dynamic("Missing") {
        Err(DynamicTypeError::UnknownSchemaName { name }) => assert_eq!(name, "Missing"),
        Ok(_) => panic!("instantiating an unregistered name must fail"),
        Err(other) => panic!("expected an unknown-name error, got {:?}", other),
    }
}

#[test]
fn static_lookup_is_memoized() {
    let mut registry = TypeRegistry::default();
    let first = registry.get_static_layout(plain(ScalarKind::I32));
    assert_eq!(registry.static_types.len(), 1);
    let second = registry.get_static_layout(plain(ScalarKind::I32));
    assert_eq!(registry.static_types.len(), 1);
    assert_eq!(first.type_tag, second.type_tag);
    assert_eq!(first.size, 4);
    assert_eq!(first.align, 4);
    assert_eq!(first.name, "i32");
    assert!(!first.drop_flag);
}

#[test]
fn family_registration_covers_the_derived_forms() {
    let mut registry = TypeRegistry::default();
    registry.add_all(ScalarKind::U8);
    assert_eq!(registry.static_types.len(), 35);
    // Looking a family member up is answered from the cache.
    let opt = registry.get_static_layout(TypeTag::Single(WrapKind::Opt, ScalarKind::U8));
    assert_eq!(registry.static_types.len(), 35);
    assert_eq!(opt.size, 2);
    assert_eq!(opt.name, "Option<u8>");
    let locked = registry.get_static_layout(TypeTag::OptMany(
        Holder::MxH,
        WrapKind::SharedMx,
        ScalarKind::U8,
    ));
    assert_eq!(registry.static_types.len(), 35);
    assert_eq!(locked.size, 32);
    assert_eq!(locked.name, "Mutex<Vec<Option<Arc<Mutex<u8>>>>>");
    // A form outside the family is computed and cached on demand.
    registry.get_static_layout(plain(ScalarKind::I16));
    assert_eq!(registry.static_types.len(), 36);
}

#[test]
fn descriptors_follow_their_tags() {
    let text = StaticTypeLayout::of(plain(ScalarKind::Text));
    assert_eq!(text.size, 24);
    assert_eq!(text.align, 8);
    assert_eq!(text.name, "String");
    assert!(text.drop_flag);
    let color = StaticTypeLayout::of(plain(ScalarKind::Color));
    assert_eq!(color.size, 4);
    assert_eq!(color.align, 1);
    assert_eq!(color.name, "Color");
    assert!(!color.drop_flag);
    let gid = StaticTypeLayout::of(plain(ScalarKind::Gid));
    assert_eq!(gid.size, 8);
    assert_eq!(gid.align, 4);
    assert_eq!(gid.name, "GID");
}
