use mirror_mirror::reflect::{FromReflect, Reflect};
use mirror_mirror::sample::{Bar, Baz, Foo, Nested};
use mirror_mirror::value::{StructValue, Value};

#[test]
fn accessing_fields() {
    let foo = Foo { field: 42 };
    let value = foo.to_value();
    let struct_ = value.as_struct().unwrap();

    let value = i32::from_reflect(struct_.field("field").unwrap()).unwrap();

    assert_eq!(value, 42);
}

#[test]
fn patching() {
    let mut foo = Foo { field: 42 };

    let patch = StructValue::default().with_field("field", 1337);

    foo.patch(&patch.to_value());

    assert_eq!(foo.field, 1337);
}

#[test]
fn patching_struct_value() {
    let mut value = StructValue::default().with_field("field", 42);
    let patch = StructValue::default().with_field("field", 1337);
    value.patch(&patch.to_value());

    assert_eq!(
        i32::from_reflect(value.field("field").unwrap()).unwrap(),
        1337
    );
}

#[test]
fn from_reflect() {
    let foo = Foo::default();
    let foo_value: Value = foo.to_value();

    let foo = Foo::from_reflect(&foo_value).unwrap();

    assert_eq!(foo.field, 0);
}

#[test]
fn fields() {
    let foo = Foo::default();

    for (name, value) in foo.fields() {
        if name == "field" {
            assert_eq!(foo.field, i32::from_reflect(&value).unwrap());
        } else {
            panic!("Unknown field {name:?}");
        }
    }
}

#[test]
fn struct_value_from_reflect() {
    let value = StructValue::default().with_field("foo", 42);
    let reflect = value.to_value();

    let value = StructValue::from_reflect(&reflect).unwrap();

    assert_eq!(i32::from_reflect(value.field("foo").unwrap()).unwrap(), 42);
}

#[test]
fn box_dyn_reflect_as_reflect() {
    let foo = Foo::default();
    let mut erased: Value = foo.to_value();

    assert_eq!(
        i32::from_reflect(erased.as_struct().unwrap().field("field").unwrap()).unwrap(),
        0,
    );

    erased.patch(&StructValue::default().with_field("field", 42).to_value());

    assert_eq!(
        i32::from_reflect(erased.as_struct().unwrap().field("field").unwrap()).unwrap(),
        42,
    );

    let foo = Foo::from_reflect(&erased).unwrap();
    assert_eq!(foo, Foo { field: 42 });
}

#[test]
fn deeply_nested() {
    let foo = Nested {
        bar: Bar {
            baz: Baz { qux: 42 },
        },
    };

    let forty_two = (|| {
        foo.get_field::<Bar>("bar")?
            .get_field::<Baz>("baz")?
            .get_field::<i32>("qux")
    })()
    .unwrap();

    assert_eq!(forty_two, 42);
}

#[test]
fn field_access_idempotent() {
    let foo = Foo { field: 7 };
    let value = foo.to_value();
    let struct_ = value.as_struct().unwrap();

    let first = i32::from_reflect(struct_.field("field").unwrap()).unwrap();
    let second = i32::from_reflect(struct_.field("field").unwrap()).unwrap();

    assert_eq!(first, second);
    assert_eq!(first, 7);
}

#[test]
fn patch_leaves_absent_fields_untouched() {
    let mut value = StructValue::default().with_field("a", 1).with_field("b", 2);
    let patch = StructValue::default().with_field("a", 99);

    value.patch(&patch.to_value());

    assert_eq!(i32::from_reflect(value.field("a").unwrap()).unwrap(), 99);
    assert_eq!(i32::from_reflect(value.field("b").unwrap()).unwrap(), 2);
}

#[test]
fn patch_skips_unknown_and_mismatched_fields() {
    let mut value = StructValue::default().with_field("a", 1);
    let patch = StructValue::default()
        .with_field("a", true)
        .with_field("stranger", 5);

    value.patch(&patch.to_value());

    // The loose struct value swaps the field wholesale, whatever its kind;
    // the field the target lacks is not added.
    assert_eq!(bool::from_reflect(value.field("a").unwrap()).unwrap(), true);
    assert!(value.field("stranger").is_none());
    assert_eq!(value.fields().len(), 1);
}

#[test]
fn typed_patch_ignores_wrong_scalar_kind() {
    let mut foo = Foo { field: 3 };
    let patch = StructValue::default().with_field("field", true);

    foo.patch(&patch.to_value());

    assert_eq!(foo.field, 3);
}

#[test]
fn missing_field_gives_no_reconstruction() {
    let empty = StructValue::default().to_value();
    assert!(Foo::from_reflect(&empty).is_none());

    let wrong_kind = StructValue::default().with_field("field", true).to_value();
    assert!(Foo::from_reflect(&wrong_kind).is_none());

    let wrong_shape = 42i32.to_value();
    assert!(Foo::from_reflect(&wrong_shape).is_none());
}

#[test]
fn nested_round_trip() {
    let foo = Nested {
        bar: Bar {
            baz: Baz { qux: -5 },
        },
    };

    let back = Nested::from_reflect(&foo.to_value()).unwrap();

    assert_eq!(back, foo);
}

#[test]
fn set_field_replaces_in_place() {
    let mut value = StructValue::new();
    value.set_field("a", 1i32.to_value());
    value.set_field("b", 2i32.to_value());
    value.set_field("a", 9i32.to_value());

    let fields = value.fields();
    assert_eq!(fields.len(), 2);
    assert_eq!(fields[0].0, "a");
    assert_eq!(fields[1].0, "b");
    assert_eq!(i32::from_reflect(&fields[0].1).unwrap(), 9);
}

#[test]
fn empty_struct_value_finds_nothing() {
    let value = StructValue::new();
    assert!(value.field("anything").is_none());
}

#[test]
fn nested_patch_descends() {
    let mut foo = Nested {
        bar: Bar {
            baz: Baz { qux: 1 },
        },
    };

    let patch = StructValue::default().with_field(
        "bar",
        StructValue::default().with_field(
            "baz",
            StructValue::default().with_field("qux", 9),
        ),
    );
    foo.patch(&patch.to_value());

    assert_eq!(foo.bar.baz.qux, 9);
}
