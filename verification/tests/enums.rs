use mirror_mirror::reflect::{FromReflect, Reflect};
use mirror_mirror::sample::SampleEnum;
use mirror_mirror::value::{EnumValue, VariantKind};

#[test]
fn variant_introspection() {
    let v = SampleEnum::Move { x: 1, y: 2 };
    assert_eq!(v.variant_name(), "Move");
    assert!(matches!(v.variant_kind(), VariantKind::Struct));
    assert_eq!(i32::from_reflect(&v.field("x").unwrap()).unwrap(), 1);
    assert_eq!(i32::from_reflect(&v.field("y").unwrap()).unwrap(), 2);
    assert!(v.field("z").is_none());
    assert!(v.element(0).is_none());

    let t = SampleEnum::Shift(3, 4);
    assert_eq!(t.variant_name(), "Shift");
    assert!(matches!(t.variant_kind(), VariantKind::Tuple));
    assert_eq!(i32::from_reflect(&t.element(0).unwrap()).unwrap(), 3);
    assert_eq!(i32::from_reflect(&t.element(1).unwrap()).unwrap(), 4);
    assert!(t.element(2).is_none());
    assert!(t.field("x").is_none());

    let u = SampleEnum::Idle;
    assert_eq!(u.variant_name(), "Idle");
    assert!(matches!(u.variant_kind(), VariantKind::Unit));
    assert!(u.field("x").is_none());
    assert!(u.element(0).is_none());
}

#[test]
fn enum_round_trip() {
    for v in [
        SampleEnum::Idle,
        SampleEnum::Move { x: -7, y: 9 },
        SampleEnum::Shift(5, -6),
    ] {
        let back = SampleEnum::from_reflect(&v.to_value()).unwrap();
        assert_eq!(back, v);
    }
}

#[test]
fn patch_refuses_variant_change_from_partial_data() {
    let mut v = SampleEnum::Move { x: 1, y: 2 };

    // Tagged with a different variant, and carrying too little to rebuild a
    // whole value: one element where the tuple variant needs two.
    let patch = EnumValue::new_tuple_variant("Shift").with_element(7);
    v.patch(&patch.to_value());

    assert_eq!(v, SampleEnum::Move { x: 1, y: 2 });
}

#[test]
fn patch_applies_within_matching_variant() {
    let mut v = SampleEnum::Move { x: 1, y: 2 };

    let patch = EnumValue::new_struct_variant("Move").with_field("x", 99);
    v.patch(&patch.to_value());

    assert_eq!(v, SampleEnum::Move { x: 99, y: 2 });
}

#[test]
fn patch_with_complete_value_changes_variant() {
    let mut v = SampleEnum::Move { x: 1, y: 2 };

    let patch = EnumValue::new_tuple_variant("Shift")
        .with_element(7)
        .with_element(8);
    v.patch(&patch.to_value());

    assert_eq!(v, SampleEnum::Shift(7, 8));
}

#[test]
fn patch_in_tuple_variant() {
    let mut v = SampleEnum::Shift(1, 2);

    let patch = EnumValue::new_tuple_variant("Shift").with_element(50);
    v.patch(&patch.to_value());

    assert_eq!(v, SampleEnum::Shift(50, 2));
}

#[test]
fn unknown_variant_gives_no_reconstruction() {
    let stranger = EnumValue::new_unit_variant("Elsewhere").to_value();
    assert!(SampleEnum::from_reflect(&stranger).is_none());

    let partial = EnumValue::new_struct_variant("Move")
        .with_field("x", 1)
        .to_value();
    assert!(SampleEnum::from_reflect(&partial).is_none());
}

#[test]
fn enum_value_keeps_its_tag() {
    let ev = EnumValue::new_struct_variant("Move").with_field("x", 4);
    assert_eq!(ev.variant_name(), "Move");
    assert!(matches!(ev.variant_kind(), VariantKind::Struct));
    assert_eq!(i32::from_reflect(ev.field("x").unwrap()).unwrap(), 4);
    assert!(ev.field("y").is_none());
    assert!(ev.element(0).is_none());

    let tv = EnumValue::new_tuple_variant("Shift").with_element(1);
    assert_eq!(i32::from_reflect(tv.element(0).unwrap()).unwrap(), 1);
    assert!(tv.element(1).is_none());
    assert!(tv.field("x").is_none());
}

#[test]
fn enum_fields_iteration() {
    let v = SampleEnum::Move { x: 10, y: 20 };
    let fields = v.fields();
    assert_eq!(fields.len(), 2);
    assert_eq!(fields[0].0, "x");
    assert_eq!(fields[1].0, "y");
    assert_eq!(i32::from_reflect(&fields[0].1).unwrap(), 10);
    assert_eq!(i32::from_reflect(&fields[1].1).unwrap(), 20);

    let t = SampleEnum::Shift(1, 2);
    assert_eq!(t.fields().len(), 0);
    assert_eq!(t.elements().len(), 2);
    assert_eq!(SampleEnum::Idle.elements().len(), 0);
}
