use mirror_mirror::reflect::{FromReflect, Reflect};
use mirror_mirror::type_info::{meta_value, TypeInfo};
use mirror_mirror::sample::{Foo, SampleEnum};
use mirror_mirror::value::{
    ReflectRef, ScalarValue, StructValue, TupleStructValue, Value, VariantKind,
};

#[test]
fn scalar_round_trips() {
    assert_eq!(i32::from_reflect(&(-3i32).to_value()).unwrap(), -3);
    assert_eq!(i64::from_reflect(&7i64.to_value()).unwrap(), 7);
    assert_eq!(u32::from_reflect(&9u32.to_value()).unwrap(), 9);
    assert_eq!(u64::from_reflect(&11u64.to_value()).unwrap(), 11);
    assert_eq!(usize::from_reflect(&13usize.to_value()).unwrap(), 13);
    assert_eq!(bool::from_reflect(&true.to_value()).unwrap(), true);
    assert_eq!(
        String::from_reflect(&String::from("mirror").to_value()).unwrap(),
        "mirror"
    );
}

#[test]
fn scalar_kind_is_checked_on_cast() {
    let b = true.to_value();
    assert!(i32::from_reflect(&b).is_none());
    let n = 5i32.to_value();
    assert!(u32::from_reflect(&n).is_none());
    assert!(bool::from_reflect(&n).is_none());
}

#[test]
fn scalar_patch_replaces_same_kind_only() {
    let mut n = 1i32;
    n.patch(&2i32.to_value());
    assert_eq!(n, 2);

    n.patch(&true.to_value());
    assert_eq!(n, 2);

    let mut s = String::from("before");
    s.patch(&String::from("after").to_value());
    assert_eq!(s, "after");
}

#[test]
fn value_round_trip() {
    let original = StructValue::default()
        .with_field("alpha", 1)
        .with_field("beta", String::from("two"))
        .to_value();

    let copy = Value::from_reflect(&original).unwrap();
    let strct = copy.as_struct().unwrap();
    assert_eq!(i32::from_reflect(strct.field("alpha").unwrap()).unwrap(), 1);
    assert_eq!(
        String::from_reflect(strct.field("beta").unwrap()).unwrap(),
        "two"
    );
}

#[test]
fn value_patch_replaces_wholesale() {
    let mut value = StructValue::default().with_field("a", 1).to_value();
    value.patch(&4i32.to_value());
    assert_eq!(i32::from_reflect(&value).unwrap(), 4);
}

#[test]
fn tuple_struct_patch_is_positional() {
    let mut t = TupleStructValue::new()
        .with_element(1)
        .with_element(2)
        .with_element(3);

    let patch = TupleStructValue::new().with_element(10).with_element(20);
    t.patch(&patch.to_value());

    assert_eq!(i32::from_reflect(t.element(0).unwrap()).unwrap(), 10);
    assert_eq!(i32::from_reflect(t.element(1).unwrap()).unwrap(), 20);
    assert_eq!(i32::from_reflect(t.element(2).unwrap()).unwrap(), 3);
    assert!(t.element(3).is_none());
}

#[test]
fn shape_dispatch_is_exclusive() {
    let v = 1i32.to_value();
    assert!(v.as_scalar().is_some());
    assert!(v.as_struct().is_none());
    assert!(v.as_tuple_struct().is_none());
    assert!(v.as_enum().is_none());

    let list = Value::List(vec![1i32.to_value(), 2i32.to_value()]);
    assert!(list.as_struct().is_none());
    let copy = list.clone_value();
    match copy {
        Value::List(items) => {
            assert_eq!(items.len(), 2);
            assert_eq!(i32::from_reflect(&items[1]).unwrap(), 2);
        }
        _ => panic!("a list stays a list"),
    }

    let map = Value::Mapping(vec![(1i32.to_value(), true.to_value())]);
    let copy = map.clone_value();
    match copy {
        Value::Mapping(entries) => {
            assert_eq!(entries.len(), 1);
            assert_eq!(bool::from_reflect(&entries[0].1).unwrap(), true);
        }
        _ => panic!("a map stays a map"),
    }
}

#[test]
fn unit_scalar_carries_through() {
    let v = Value::Scalar(ScalarValue::Unit);
    let copy = v.clone_value();
    assert!(matches!(
        copy.as_scalar().unwrap(),
        ScalarValue::Unit
    ));
}

#[test]
fn struct_type_info() {
    match Foo::type_info() {
        TypeInfo::Struct(info) => {
            assert_eq!(info.ty_name, "Foo");
            assert_eq!(info.fields.len(), 1);
            assert_eq!(info.fields[0].name.as_deref(), Some("field"));
            assert_eq!(info.fields[0].ty_name, "i32");
        }
        _ => panic!("a struct describes itself as a struct"),
    }
}

#[test]
fn enum_type_info() {
    match SampleEnum::type_info() {
        TypeInfo::Enum(info) => {
            assert_eq!(info.ty_name, "SampleEnum");
            let names: Vec<&str> = info.variants.iter().map(|v| v.name.as_str()).collect();
            assert_eq!(names, ["Idle", "Move", "Shift"]);
            assert!(matches!(info.variants[0].kind, VariantKind::Unit));
            assert!(matches!(info.variants[1].kind, VariantKind::Struct));
            assert!(matches!(info.variants[2].kind, VariantKind::Tuple));
            assert_eq!(info.variants[1].fields[0].name.as_deref(), Some("x"));
            assert_eq!(info.variants[2].fields[0].name, None);
        }
        _ => panic!("an enum describes itself as an enum"),
    }
}

#[test]
fn metadata_bag_lookup() {
    let meta = vec![
        (String::from("docs"), String::from("a sample").to_value()),
        (String::from("order"), 3i32.to_value()),
    ];
    assert_eq!(
        String::from_reflect(meta_value(&meta, "docs").unwrap()).unwrap(),
        "a sample"
    );
    assert_eq!(i32::from_reflect(meta_value(&meta, "order").unwrap()).unwrap(), 3);
    assert!(meta_value(&meta, "absent").is_none());
}

#[test]
fn field_mut_updates_in_place() {
    let mut value = StructValue::default().with_field("a", 1).with_field("b", 2);
    *value.field_mut("a").unwrap() = 50i32.to_value();
    assert!(value.field_mut("absent").is_none());

    assert_eq!(i32::from_reflect(value.field("a").unwrap()).unwrap(), 50);
    assert_eq!(i32::from_reflect(value.field("b").unwrap()).unwrap(), 2);
}

#[test]
fn element_mut_updates_in_place() {
    let mut t = TupleStructValue::new().with_element(1).with_element(2);
    *t.element_mut(1).unwrap() = 9i32.to_value();
    assert!(t.element_mut(2).is_none());

    assert_eq!(i32::from_reflect(t.element(0).unwrap()).unwrap(), 1);
    assert_eq!(i32::from_reflect(t.element(1).unwrap()).unwrap(), 9);
}

#[test]
fn enum_value_mutable_access() {
    let mut ev = mirror_mirror::value::EnumValue::new_struct_variant("Move")
        .with_field("x", 1)
        .with_field("y", 2);
    *ev.field_mut("y").unwrap() = 7i32.to_value();
    assert!(ev.field_mut("z").is_none());
    assert_eq!(i32::from_reflect(ev.field("y").unwrap()).unwrap(), 7);
    assert_eq!(ev.variant_name(), "Move");

    let mut tv = mirror_mirror::value::EnumValue::new_tuple_variant("Shift")
        .with_element(1)
        .with_element(2);
    *tv.element_mut(0).unwrap() = 8i32.to_value();
    assert!(tv.element_mut(5).is_none());
    assert_eq!(i32::from_reflect(tv.element(0).unwrap()).unwrap(), 8);
}

#[test]
fn reflect_ref_names_the_one_shape() {
    let v = StructValue::default().with_field("a", 1).to_value();
    match v.reflect_ref() {
        ReflectRef::Struct(s) => {
            assert_eq!(i32::from_reflect(s.field("a").unwrap()).unwrap(), 1);
        }
        _ => panic!("a struct value dispatches as a struct"),
    }

    let v = mirror_mirror::value::EnumValue::new_unit_variant("Idle").to_value();
    assert!(matches!(v.reflect_ref(), ReflectRef::Enum(_)));

    let v = TupleStructValue::new().with_element(1).to_value();
    assert!(matches!(v.reflect_ref(), ReflectRef::TupleStruct(_)));

    let v = false.to_value();
    assert!(matches!(v.reflect_ref(), ReflectRef::Scalar(_)));
}
