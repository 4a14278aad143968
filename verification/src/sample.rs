//! Hand-written adapters for a few concrete types: one flat struct, a
//! three-level struct chain, and an enum with a unit, a struct and a tuple
//! variant. They show what an adapter implementation of the protocol looks
//! like for ordinary declarations, and they carry the typed laws: round
//! trips, patch partiality, and the refusal to change an enum's variant from
//! partial data.

use crate::reflect::{spec_lookup, FromReflect, Reflect};
use crate::value::{
    fields_model,
    group_value_model_facts,
    values_model,
    EnumValue,
    SpecEnum,
    SpecScalar,
    SpecValue,
    StructValue,
    Value,
    VariantKind,
};
use vstd::prelude::*;

verus! {

/// A struct with a single integer field.
#[derive(Clone, Copy, PartialEq, Eq, Structural, Debug)]
pub struct Foo {
    pub field: i32,
}

impl Default for Foo {
    fn default() -> (r: Foo)
        ensures
            r == (Foo { field: 0 }),
    {
        Foo { field: 0 }
    }
}

impl Foo {
    /// The model of this struct's fields, in declaration order.
    pub open spec fn spec_fields(&self) -> Seq<(Seq<char>, SpecValue)> {
        seq![("field"@, self.field.model())]
    }

    /// The value of the field called `name`, converted to the interchange
    /// form; nothing when no field bears that name.
    pub fn field(&self, name: &str) -> (r: Option<Value>)
        ensures
            match r {
                Some(v) => spec_lookup(self.spec_fields(), name@) == Some(v@),
                None => spec_lookup(self.spec_fields(), name@) is None,
            },
    {
        let key: String = name.to_owned();
        if key == "field".to_owned() {
            Some(self.field.to_value())
        } else {
            proof {
                lemma_lookup_one(self.spec_fields(), name@);
            }
            None
        }
    }

    /// The named fields and their values, in declaration order.
    pub fn fields(&self) -> (r: Vec<(String, Value)>)
        ensures
            fields_model(r@) == self.spec_fields(),
    {
        let r = vec![("field".to_owned(), self.field.to_value())];
        proof {
            broadcast use group_value_model_facts;

            assert(fields_model(r@) =~= self.spec_fields());
        }
        r
    }

    /// The typed value of the field called `name`, or nothing when the field
    /// is absent or does not reconstruct as `T`.
    pub fn get_field<T: FromReflect>(&self, name: &str) -> (r: Option<T>)
        ensures
            match r {
                Some(t) => spec_lookup(self.spec_fields(), name@) matches Some(w)
                    && T::can_reconstruct(w) && t.model() == T::reconstructed(w),
                None => !(spec_lookup(self.spec_fields(), name@) matches Some(w)
                    && T::can_reconstruct(w)),
            },
    {
        match self.field(name) {
            Some(v) => T::from_reflect(&v),
            None => None,
        }
    }
}

impl Reflect for Foo {
    open spec fn model(&self) -> SpecValue {
        SpecValue::Struct(self.spec_fields())
    }

    /// A struct-shaped source patches the field in place when it names it
    /// with a matching scalar; everything else is skipped.
    open spec fn patched(&self, source: SpecValue) -> SpecValue {
        match source {
            SpecValue::Struct(s) => SpecValue::Struct(
                seq![
                    (
                        "field"@,
                        match spec_lookup(s, "field"@) {
                            Some(w) => self.field.patched(w),
                            None => self.field.model(),
                        },
                    ),
                ],
            ),
            _ => self.model(),
        }
    }

    fn to_value(&self) -> (v: Value) {
        let sv = StructValue::new().with_field("field", self.field);
        proof {
            assert(sv@ =~= self.spec_fields());
        }
        Value::Struct(sv)
    }

    fn clone_reflect(&self) -> (r: Foo) {
        Foo { field: self.field }
    }

    fn patch(&mut self, source: &Value) {
        if let Some(src) = source.as_struct() {
            match src.field("field") {
                Some(v) => {
                    self.field.patch(v);
                },
                None => {},
            }
            proof {
                assert(self.model()->Struct_0 =~= old(self).patched(source@)->Struct_0);
            }
        }
    }
}

impl FromReflect for Foo {
    /// Reconstruction needs a struct-shaped source whose field `field` is an
    /// `i32` scalar; a missing or mismatched field yields nothing.
    open spec fn can_reconstruct(source: SpecValue) -> bool {
        match source {
            SpecValue::Struct(s) => spec_lookup(s, "field"@) matches Some(w)
                && <i32 as FromReflect>::can_reconstruct(w),
            _ => false,
        }
    }

    open spec fn reconstructed(source: SpecValue) -> SpecValue {
        match source {
            SpecValue::Struct(s) => match spec_lookup(s, "field"@) {
                Some(w) => SpecValue::Struct(
                    seq![("field"@, <i32 as FromReflect>::reconstructed(w))],
                ),
                None => source,
            },
            _ => source,
        }
    }

    fn from_reflect(source: &Value) -> (r: Option<Foo>) {
        match source.as_struct() {
            Some(src) => match src.field("field") {
                Some(v) => match i32::from_reflect(v) {
                    Some(n) => {
                        proof {
                            assert((Foo { field: n }).model() =~~= Self::reconstructed(source@));
                        }
                        Some(Foo { field: n })
                    },
                    None => None,
                },
                None => None,
            },
            None => None,
        }
    }

    proof fn lemma_round_trip(v: Foo) {
        assert(spec_lookup(v.spec_fields(), "field"@) == Some(v.field.model()));
        assert(Self::reconstructed(v.model()) =~~= v.model());
    }
}

/// The innermost link of a three-level struct chain.
#[derive(Clone, Copy, PartialEq, Eq, Structural, Debug)]
pub struct Baz {
    pub qux: i32,
}

impl Baz {
    /// The model of this struct's fields, in declaration order.
    pub open spec fn spec_fields(&self) -> Seq<(Seq<char>, SpecValue)> {
        seq![("qux"@, self.qux.model())]
    }

    /// The value of the field called `name`, converted to the interchange
    /// form; nothing when no field bears that name.
    pub fn field(&self, name: &str) -> (r: Option<Value>)
        ensures
            match r {
                Some(v) => spec_lookup(self.spec_fields(), name@) == Some(v@),
                None => spec_lookup(self.spec_fields(), name@) is None,
            },
    {
        let key: String = name.to_owned();
        if key == "qux".to_owned() {
            Some(self.qux.to_value())
        } else {
            proof {
                lemma_lookup_one(self.spec_fields(), name@);
            }
            None
        }
    }

    /// The typed value of the field called `name`, or nothing when the field
    /// is absent or does not reconstruct as `T`.
    pub fn get_field<T: FromReflect>(&self, name: &str) -> (r: Option<T>)
        ensures
            match r {
                Some(t) => spec_lookup(self.spec_fields(), name@) matches Some(w)
                    && T::can_reconstruct(w) && t.model() == T::reconstructed(w),
                None => !(spec_lookup(self.spec_fields(), name@) matches Some(w)
                    && T::can_reconstruct(w)),
            },
    {
        match self.field(name) {
            Some(v) => T::from_reflect(&v),
            None => None,
        }
    }
}

impl Reflect for Baz {
    open spec fn model(&self) -> SpecValue {
        SpecValue::Struct(self.spec_fields())
    }

    open spec fn patched(&self, source: SpecValue) -> SpecValue {
        match source {
            SpecValue::Struct(s) => SpecValue::Struct(
                seq![
                    (
                        "qux"@,
                        match spec_lookup(s, "qux"@) {
                            Some(w) => self.qux.patched(w),
                            None => self.qux.model(),
                        },
                    ),
                ],
            ),
            _ => self.model(),
        }
    }

    fn to_value(&self) -> (v: Value) {
        let sv = StructValue::new().with_field("qux", self.qux);
        proof {
            assert(sv@ =~= self.spec_fields());
        }
        Value::Struct(sv)
    }

    fn clone_reflect(&self) -> (r: Baz) {
        Baz { qux: self.qux }
    }

    fn patch(&mut self, source: &Value) {
        if let Some(src) = source.as_struct() {
            match src.field("qux") {
                Some(v) => {
                    self.qux.patch(v);
                },
                None => {},
            }
            proof {
                assert(self.model()->Struct_0 =~= old(self).patched(source@)->Struct_0);
            }
        }
    }
}

impl FromReflect for Baz {
    open spec fn can_reconstruct(source: SpecValue) -> bool {
        match source {
            SpecValue::Struct(s) => spec_lookup(s, "qux"@) matches Some(w)
                && <i32 as FromReflect>::can_reconstruct(w),
            _ => false,
        }
    }

    open spec fn reconstructed(source: SpecValue) -> SpecValue {
        match source {
            SpecValue::Struct(s) => match spec_lookup(s, "qux"@) {
                Some(w) => SpecValue::Struct(
                    seq![("qux"@, <i32 as FromReflect>::reconstructed(w))],
                ),
                None => source,
            },
            _ => source,
        }
    }

    fn from_reflect(source: &Value) -> (r: Option<Baz>) {
        match source.as_struct() {
            Some(src) => match src.field("qux") {
                Some(v) => match i32::from_reflect(v) {
                    Some(n) => {
                        proof {
                            assert((Baz { qux: n }).model() =~~= Self::reconstructed(source@));
                        }
                        Some(Baz { qux: n })
                    },
                    None => None,
                },
                None => None,
            },
            None => None,
        }
    }

    proof fn lemma_round_trip(v: Baz) {
        assert(spec_lookup(v.spec_fields(), "qux"@) == Some(v.qux.model()));
        assert(Self::reconstructed(v.model()) =~~= v.model());
    }
}

/// The middle link of a three-level struct chain.
#[derive(Clone, Copy, PartialEq, Eq, Structural, Debug)]
pub struct Bar {
    pub baz: Baz,
}

impl Bar {
    /// The model of this struct's fields, in declaration order.
    pub open spec fn spec_fields(&self) -> Seq<(Seq<char>, SpecValue)> {
        seq![("baz"@, self.baz.model())]
    }

    /// The value of the field called `name`, converted to the interchange
    /// form; nothing when no field bears that name.
    pub fn field(&self, name: &str) -> (r: Option<Value>)
        ensures
            match r {
                Some(v) => spec_lookup(self.spec_fields(), name@) == Some(v@),
                None => spec_lookup(self.spec_fields(), name@) is None,
            },
    {
        let key: String = name.to_owned();
        if key == "baz".to_owned() {
            Some(self.baz.to_value())
        } else {
            proof {
                lemma_lookup_one(self.spec_fields(), name@);
            }
            None
        }
    }

    /// The typed value of the field called `name`, or nothing when the field
    /// is absent or does not reconstruct as `T`.
    pub fn get_field<T: FromReflect>(&self, name: &str) -> (r: Option<T>)
        ensures
            match r {
                Some(t) => spec_lookup(self.spec_fields(), name@) matches Some(w)
                    && T::can_reconstruct(w) && t.model() == T::reconstructed(w),
                None => !(spec_lookup(self.spec_fields(), name@) matches Some(w)
                    && T::can_reconstruct(w)),
            },
    {
        match self.field(name) {
            Some(v) => T::from_reflect(&v),
            None => None,
        }
    }
}

impl Reflect for Bar {
    open spec fn model(&self) -> SpecValue {
        SpecValue::Struct(self.spec_fields())
    }

    /// Patching descends into the nested struct field rather than replacing
    /// it wholesale.
    open spec fn patched(&self, source: SpecValue) -> SpecValue {
        match source {
            SpecValue::Struct(s) => SpecValue::Struct(
                seq![
                    (
                        "baz"@,
                        match spec_lookup(s, "baz"@) {
                            Some(w) => self.baz.patched(w),
                            None => self.baz.model(),
                        },
                    ),
                ],
            ),
            _ => self.model(),
        }
    }

    fn to_value(&self) -> (v: Value) {
        let sv = StructValue::new().with_field("baz", self.baz);
        proof {
            assert(sv@ =~= self.spec_fields());
        }
        Value::Struct(sv)
    }

    fn clone_reflect(&self) -> (r: Bar) {
        Bar { baz: self.baz }
    }

    fn patch(&mut self, source: &Value) {
        if let Some(src) = source.as_struct() {
            match src.field("baz") {
                Some(v) => {
                    self.baz.patch(v);
                },
                None => {},
            }
            proof {
                assert(self.model()->Struct_0 =~= old(self).patched(source@)->Struct_0);
            }
        }
    }
}

impl FromReflect for Bar {
    open spec fn can_reconstruct(source: SpecValue) -> bool {
        match source {
            SpecValue::Struct(s) => spec_lookup(s, "baz"@) matches Some(w)
                && <Baz as FromReflect>::can_reconstruct(w),
            _ => false,
        }
    }

    open spec fn reconstructed(source: SpecValue) -> SpecValue {
        match source {
            SpecValue::Struct(s) => match spec_lookup(s, "baz"@) {
                Some(w) => SpecValue::Struct(
                    seq![("baz"@, <Baz as FromReflect>::reconstructed(w))],
                ),
                None => source,
            },
            _ => source,
        }
    }

    fn from_reflect(source: &Value) -> (r: Option<Bar>) {
        match source.as_struct() {
            Some(src) => match src.field("baz") {
                Some(v) => match Baz::from_reflect(v) {
                    Some(b) => {
                        proof {
                            assert((Bar { baz: b }).model() =~~= Self::reconstructed(source@));
                        }
                        Some(Bar { baz: b })
                    },
                    None => None,
                },
                None => None,
            },
            None => None,
        }
    }

    proof fn lemma_round_trip(v: Bar) {
        Baz::lemma_round_trip(v.baz);
        assert(spec_lookup(v.spec_fields(), "baz"@) == Some(v.baz.model()));
        assert(Self::reconstructed(v.model()) =~~= v.model());
    }
}

/// The outermost link of a three-level struct chain.
#[derive(Clone, Copy, PartialEq, Eq, Structural, Debug)]
pub struct Nested {
    pub bar: Bar,
}

impl Nested {
    /// The model of this struct's fields, in declaration order.
    pub open spec fn spec_fields(&self) -> Seq<(Seq<char>, SpecValue)> {
        seq![("bar"@, self.bar.model())]
    }

    /// The value of the field called `name`, converted to the interchange
    /// form; nothing when no field bears that name.
    pub fn field(&self, name: &str) -> (r: Option<Value>)
        ensures
            match r {
                Some(v) => spec_lookup(self.spec_fields(), name@) == Some(v@),
                None => spec_lookup(self.spec_fields(), name@) is None,
            },
    {
        let key: String = name.to_owned();
        if key == "bar".to_owned() {
            Some(self.bar.to_value())
        } else {
            proof {
                lemma_lookup_one(self.spec_fields(), name@);
            }
            None
        }
    }

    /// The typed value of the field called `name`, or nothing when the field
    /// is absent or does not reconstruct as `T`.
    pub fn get_field<T: FromReflect>(&self, name: &str) -> (r: Option<T>)
        ensures
            match r {
                Some(t) => spec_lookup(self.spec_fields(), name@) matches Some(w)
                    && T::can_reconstruct(w) && t.model() == T::reconstructed(w),
                None => !(spec_lookup(self.spec_fields(), name@) matches Some(w)
                    && T::can_reconstruct(w)),
            },
    {
        match self.field(name) {
            Some(v) => T::from_reflect(&v),
            None => None,
        }
    }
}

impl Reflect for Nested {
    open spec fn model(&self) -> SpecValue {
        SpecValue::Struct(self.spec_fields())
    }

    /// Patching descends into the nested struct field rather than replacing
    /// it wholesale.
    open spec fn patched(&self, source: SpecValue) -> SpecValue {
        match source {
            SpecValue::Struct(s) => SpecValue::Struct(
                seq![
                    (
                        "bar"@,
                        match spec_lookup(s, "bar"@) {
                            Some(w) => self.bar.patched(w),
                            None => self.bar.model(),
                        },
                    ),
                ],
            ),
            _ => self.model(),
        }
    }

    fn to_value(&self) -> (v: Value) {
        let sv = StructValue::new().with_field("bar", self.bar);
        proof {
            assert(sv@ =~= self.spec_fields());
        }
        Value::Struct(sv)
    }

    fn clone_reflect(&self) -> (r: Nested) {
        Nested { bar: self.bar }
    }

    fn patch(&mut self, source: &Value) {
        if let Some(src) = source.as_struct() {
            match src.field("bar") {
                Some(v) => {
                    self.bar.patch(v);
                },
                None => {},
            }
            proof {
                assert(self.model()->Struct_0 =~= old(self).patched(source@)->Struct_0);
            }
        }
    }
}

impl FromReflect for Nested {
    open spec fn can_reconstruct(source: SpecValue) -> bool {
        match source {
            SpecValue::Struct(s) => spec_lookup(s, "bar"@) matches Some(w)
                && <Bar as FromReflect>::can_reconstruct(w),
            _ => false,
        }
    }

    open spec fn reconstructed(source: SpecValue) -> SpecValue {
        match source {
            SpecValue::Struct(s) => match spec_lookup(s, "bar"@) {
                Some(w) => SpecValue::Struct(
                    seq![("bar"@, <Bar as FromReflect>::reconstructed(w))],
                ),
                None => source,
            },
            _ => source,
        }
    }

    fn from_reflect(source: &Value) -> (r: Option<Nested>) {
        match source.as_struct() {
            Some(src) => match src.field("bar") {
                Some(v) => match Bar::from_reflect(v) {
                    Some(b) => {
                        proof {
                            assert((Nested { bar: b }).model() =~~= Self::reconstructed(source@));
                        }
                        Some(Nested { bar: b })
                    },
                    None => None,
                },
                None => None,
            },
            None => None,
        }
    }

    proof fn lemma_round_trip(v: Nested) {
        Bar::lemma_round_trip(v.bar);
        assert(spec_lookup(v.spec_fields(), "bar"@) == Some(v.bar.model()));
        assert(Self::reconstructed(v.model()) =~~= v.model());
    }
}

/// An enum with all three variant shapes: a unit variant, a struct variant
/// and a tuple variant.
#[derive(Clone, Copy, PartialEq, Eq, Structural, Debug)]
pub enum SampleEnum {
    Idle,
    Move { x: i32, y: i32 },
    Shift(i32, i32),
}

impl SampleEnum {
    /// The model of the active variant.
    pub open spec fn spec_enum(&self) -> SpecEnum {
        match self {
            SampleEnum::Idle => SpecEnum {
                name: "Idle"@,
                kind: VariantKind::Unit,
                fields: Seq::empty(),
                elements: Seq::empty(),
            },
            SampleEnum::Move { x, y } => SpecEnum {
                name: "Move"@,
                kind: VariantKind::Struct,
                fields: seq![("x"@, x.model()), ("y"@, y.model())],
                elements: Seq::empty(),
            },
            SampleEnum::Shift(a, b) => SpecEnum {
                name: "Shift"@,
                kind: VariantKind::Tuple,
                fields: Seq::empty(),
                elements: seq![a.model(), b.model()],
            },
        }
    }

    /// The active variant's name; a pure function of the current state.
    pub fn variant_name(&self) -> (r: &str)
        ensures
            r@ == self.spec_enum().name,
    {
        match self {
            SampleEnum::Idle => "Idle",
            SampleEnum::Move { .. } => "Move",
            SampleEnum::Shift(..) => "Shift",
        }
    }

    /// The active variant's kind.
    pub fn variant_kind(&self) -> (r: VariantKind)
        ensures
            r == self.spec_enum().kind,
    {
        match self {
            SampleEnum::Idle => VariantKind::Unit,
            SampleEnum::Move { .. } => VariantKind::Struct,
            SampleEnum::Shift(..) => VariantKind::Tuple,
        }
    }

    /// The active variant's field called `name`, converted to the
    /// interchange form; nothing for any other name and for any non-struct
    /// variant.
    pub fn field(&self, name: &str) -> (r: Option<Value>)
        ensures
            match r {
                Some(v) => spec_lookup(self.spec_enum().fields, name@) == Some(v@),
                None => spec_lookup(self.spec_enum().fields, name@) is None,
            },
    {
        match self {
            SampleEnum::Move { x, y } => {
                let key: String = name.to_owned();
                if key == "x".to_owned() {
                    Some(x.to_value())
                } else if key == "y".to_owned() {
                    proof {
                        lemma_lookup_two(self.spec_enum().fields, name@);
                    }
                    Some(y.to_value())
                } else {
                    proof {
                        lemma_lookup_two(self.spec_enum().fields, name@);
                    }
                    None
                }
            },
            _ => None,
        }
    }

    /// The active variant's element at `index`, converted to the interchange
    /// form; nothing for an out-of-range index and for any non-tuple variant.
    pub fn element(&self, index: usize) -> (r: Option<Value>)
        ensures
            match r {
                Some(v) => index < self.spec_enum().elements.len() && v@ == self.spec_enum()
                    .elements[index as int],
                None => index >= self.spec_enum().elements.len(),
            },
    {
        match self {
            SampleEnum::Shift(a, b) => {
                if index == 0 {
                    Some(a.to_value())
                } else if index == 1 {
                    Some(b.to_value())
                } else {
                    None
                }
            },
            _ => None,
        }
    }

    /// The named fields of the active variant, in order; empty for any
    /// non-struct variant.
    pub fn fields(&self) -> (r: Vec<(String, Value)>)
        ensures
            fields_model(r@) == self.spec_enum().fields,
    {
        match self {
            SampleEnum::Move { x, y } => {
                let r = vec![("x".to_owned(), x.to_value()), ("y".to_owned(), y.to_value())];
                proof {
                    broadcast use group_value_model_facts;

                    assert(fields_model(r@) =~= self.spec_enum().fields);
                }
                r
            },
            _ => {
                let r: Vec<(String, Value)> = Vec::new();
                proof {
                    assert(fields_model(r@) =~= self.spec_enum().fields);
                }
                r
            },
        }
    }

    /// The elements of the active variant, in order; empty for any non-tuple
    /// variant.
    pub fn elements(&self) -> (r: Vec<Value>)
        ensures
            values_model(r@) == self.spec_enum().elements,
    {
        match self {
            SampleEnum::Shift(a, b) => {
                let r = vec![a.to_value(), b.to_value()];
                proof {
                    broadcast use group_value_model_facts;

                    assert(values_model(r@) =~= self.spec_enum().elements);
                }
                r
            },
            _ => {
                let r: Vec<Value> = Vec::new();
                proof {
                    assert(values_model(r@) =~= self.spec_enum().elements);
                }
                r
            },
        }
    }
}

impl Reflect for SampleEnum {
    open spec fn model(&self) -> SpecValue {
        SpecValue::Enum(self.spec_enum())
    }

    /// An enum-shaped source that fully reconstructs replaces the value;
    /// otherwise, when its variant name matches the active variant, the
    /// payload is patched piecewise; a different variant name, or a
    /// non-enum source, leaves the value unchanged.
    open spec fn patched(&self, source: SpecValue) -> SpecValue {
        if spec_sample_can(source) {
            spec_sample_reconstructed(source)
        } else {
            match source {
                SpecValue::Enum(e) => {
                    if e.name == self.spec_enum().name {
                        match self {
                            SampleEnum::Idle => self.model(),
                            SampleEnum::Move { x, y } => SpecValue::Enum(
                                SpecEnum {
                                    name: "Move"@,
                                    kind: VariantKind::Struct,
                                    fields: seq![
                                        (
                                            "x"@,
                                            match spec_lookup(e.fields, "x"@) {
                                                Some(w) => x.patched(w),
                                                None => x.model(),
                                            },
                                        ),
                                        (
                                            "y"@,
                                            match spec_lookup(e.fields, "y"@) {
                                                Some(w) => y.patched(w),
                                                None => y.model(),
                                            },
                                        ),
                                    ],
                                    elements: Seq::empty(),
                                },
                            ),
                            SampleEnum::Shift(a, b) => SpecValue::Enum(
                                SpecEnum {
                                    name: "Shift"@,
                                    kind: VariantKind::Tuple,
                                    fields: Seq::empty(),
                                    elements: seq![
                                        if e.elements.len() > 0 {
                                            a.patched(e.elements[0])
                                        } else {
                                            a.model()
                                        },
                                        if e.elements.len() > 1 {
                                            b.patched(e.elements[1])
                                        } else {
                                            b.model()
                                        },
                                    ],
                                },
                            ),
                        }
                    } else {
                        self.model()
                    }
                },
                _ => self.model(),
            }
        }
    }

    fn to_value(&self) -> (v: Value) {
        match self {
            SampleEnum::Idle => {
                let ev = EnumValue::new_unit_variant("Idle");
                proof {
                    assert(ev@ =~~= self.spec_enum());
                }
                Value::Enum(ev)
            },
            SampleEnum::Move { x, y } => {
                let ev = EnumValue::new_struct_variant("Move").with_field("x", *x);
                proof {
                    lemma_distinct_names();
                    lemma_lookup_one(ev@.fields, "y"@);
                }
                let ev = ev.with_field("y", *y);
                proof {
                    assert(ev@.fields =~= self.spec_enum().fields);
                    assert(ev@ =~~= self.spec_enum());
                }
                Value::Enum(ev)
            },
            SampleEnum::Shift(a, b) => {
                let ev = EnumValue::new_tuple_variant("Shift").with_element(*a).with_element(*b);
                proof {
                    assert(ev@.elements =~= self.spec_enum().elements);
                    assert(ev@ =~~= self.spec_enum());
                }
                Value::Enum(ev)
            },
        }
    }

    fn clone_reflect(&self) -> (r: SampleEnum) {
        *self
    }

    fn patch(&mut self, source: &Value) {
        match SampleEnum::from_reflect(source) {
            Some(new) => {
                *self = new;
            },
            None => {
                if let Some(src) = source.as_enum() {
                    let my_name: String = self.variant_name().to_owned();
                    let src_name: String = src.variant_name().to_owned();
                    if my_name == src_name {
                        let cur: SampleEnum = *self;
                        match cur {
                            SampleEnum::Idle => {},
                            SampleEnum::Move { x, y } => {
                                let mut nx = x;
                                let mut ny = y;
                                if let Some(v) = src.field("x") {
                                    nx.patch(v);
                                }
                                if let Some(v) = src.field("y") {
                                    ny.patch(v);
                                }
                                *self = SampleEnum::Move { x: nx, y: ny };
                                proof {
                                    let e = src@;
                                    assert(nx.model() == (match spec_lookup(e.fields, "x"@) {
                                        Some(w) => x.patched(w),
                                        None => x.model(),
                                    }));
                                    assert(ny.model() == (match spec_lookup(e.fields, "y"@) {
                                        Some(w) => y.patched(w),
                                        None => y.model(),
                                    }));
                                    let lhs = SpecValue::Enum(
                                        SpecEnum {
                                            name: "Move"@,
                                            kind: VariantKind::Struct,
                                            fields: seq![("x"@, nx.model()), ("y"@, ny.model())],
                                            elements: Seq::empty(),
                                        },
                                    );
                                    let rhs = SpecValue::Enum(
                                        SpecEnum {
                                            name: "Move"@,
                                            kind: VariantKind::Struct,
                                            fields: seq![
                                                (
                                                    "x"@,
                                                    match spec_lookup(e.fields, "x"@) {
                                                        Some(w) => x.patched(w),
                                                        None => x.model(),
                                                    },
                                                ),
                                                (
                                                    "y"@,
                                                    match spec_lookup(e.fields, "y"@) {
                                                        Some(w) => y.patched(w),
                                                        None => y.model(),
                                                    },
                                                ),
                                            ],
                                            elements: Seq::empty(),
                                        },
                                    );
                                    assert(self.model() == lhs);
                                    assert(old(self).patched(source@) == rhs);
                                    assert(lhs->Enum_0.fields[0] == rhs->Enum_0.fields[0]);
                                    assert(lhs->Enum_0.fields[1] == rhs->Enum_0.fields[1]);
                                    assert(lhs->Enum_0.fields =~= rhs->Enum_0.fields);
                                    assert(lhs =~~= rhs);
                                    assert(self.model() =~~= old(self).patched(source@));
                                }
                            },
                            SampleEnum::Shift(a, b) => {
                                let mut na = a;
                                let mut nb = b;
                                if let Some(v) = src.element(0) {
                                    na.patch(v);
                                }
                                if let Some(v) = src.element(1) {
                                    nb.patch(v);
                                }
                                *self = SampleEnum::Shift(na, nb);
                                proof {
                                    assert(self.model() =~~= old(self).patched(source@));
                                }
                            },
                        }
                    }
                }
            },
        }
    }
}

/// Whether a `SampleEnum` reconstructs from a value with model `source`:
/// the variant is selected by name, and every payload part of that variant
/// must be present with the right scalar kind. An unknown variant name, a
/// missing part, or a non-enum source yields nothing.
pub open spec fn spec_sample_can(source: SpecValue) -> bool {
    match source {
        SpecValue::Enum(e) => if e.name == "Idle"@ {
            true
        } else if e.name == "Move"@ {
            (spec_lookup(e.fields, "x"@) matches Some(w)
                && <i32 as FromReflect>::can_reconstruct(w)) && (spec_lookup(e.fields, "y"@)
                matches Some(w) && <i32 as FromReflect>::can_reconstruct(w))
        } else if e.name == "Shift"@ {
            e.elements.len() >= 2 && <i32 as FromReflect>::can_reconstruct(e.elements[0])
                && <i32 as FromReflect>::can_reconstruct(e.elements[1])
        } else {
            false
        },
        _ => false,
    }
}

/// The model of the `SampleEnum` that reconstruction yields from `source`.
pub open spec fn spec_sample_reconstructed(source: SpecValue) -> SpecValue {
    match source {
        SpecValue::Enum(e) => if e.name == "Idle"@ {
            SpecValue::Enum(
                SpecEnum {
                    name: "Idle"@,
                    kind: VariantKind::Unit,
                    fields: Seq::empty(),
                    elements: Seq::empty(),
                },
            )
        } else if e.name == "Move"@ {
                SpecValue::Enum(
                    SpecEnum {
                        name: "Move"@,
                        kind: VariantKind::Struct,
                        fields: seq![
                            (
                                "x"@,
                                <i32 as FromReflect>::reconstructed(
                                    spec_lookup(e.fields, "x"@)->0,
                                ),
                            ),
                            (
                                "y"@,
                                <i32 as FromReflect>::reconstructed(
                                    spec_lookup(e.fields, "y"@)->0,
                                ),
                            ),
                        ],
                        elements: Seq::empty(),
                    },
                )
            } else if e.name == "Shift"@ {
                SpecValue::Enum(
                    SpecEnum {
                        name: "Shift"@,
                        kind: VariantKind::Tuple,
                        fields: Seq::empty(),
                        elements: seq![
                            <i32 as FromReflect>::reconstructed(e.elements[0]),
                            <i32 as FromReflect>::reconstructed(e.elements[1]),
                        ],
                    },
                )
        } else {
            source
        },
        _ => source,
    }
}

impl FromReflect for SampleEnum {
    open spec fn can_reconstruct(source: SpecValue) -> bool {
        spec_sample_can(source)
    }

    open spec fn reconstructed(source: SpecValue) -> SpecValue {
        spec_sample_reconstructed(source)
    }

    fn from_reflect(source: &Value) -> (r: Option<SampleEnum>) {
        match source.as_enum() {
            Some(e) => {
                let name: String = e.variant_name().to_owned();
                if name == "Idle".to_owned() {
                    Some(SampleEnum::Idle)
                } else if name == "Move".to_owned() {
                    match e.field("x") {
                        Some(vx) => match i32::from_reflect(vx) {
                            Some(x) => match e.field("y") {
                                Some(vy) => match i32::from_reflect(vy) {
                                    Some(y) => {
                                        proof {
                                            assert((SampleEnum::Move { x, y }).model()
                                                =~~= Self::reconstructed(source@));
                                        }
                                        Some(SampleEnum::Move { x, y })
                                    },
                                    None => None,
                                },
                                None => None,
                            },
                            None => None,
                        },
                        None => None,
                    }
                } else if name == "Shift".to_owned() {
                    match e.element(0) {
                        Some(v0) => match i32::from_reflect(v0) {
                            Some(a) => match e.element(1) {
                                Some(v1) => match i32::from_reflect(v1) {
                                    Some(b) => {
                                        proof {
                                            assert((SampleEnum::Shift(a, b)).model()
                                                =~~= Self::reconstructed(source@));
                                        }
                                        Some(SampleEnum::Shift(a, b))
                                    },
                                    None => None,
                                },
                                None => None,
                            },
                            None => None,
                        },
                        None => None,
                    }
                } else {
                    None
                }
            },
            None => None,
        }
    }

    proof fn lemma_round_trip(v: SampleEnum) {
        lemma_distinct_names();
        match v {
            SampleEnum::Idle => {
                assert(Self::reconstructed(v.model()) =~~= v.model());
            },
            SampleEnum::Move { x, y } => {
                lemma_lookup_two(v.spec_enum().fields, "x"@);
                lemma_lookup_two(v.spec_enum().fields, "y"@);
                assert(Self::reconstructed(v.model()) =~~= v.model());
            },
            SampleEnum::Shift(a, b) => {
                assert(Self::reconstructed(v.model()) =~~= v.model());
            },
        }
    }
}

/// Enum variant patch refusal: a patch tagged with a different variant name
/// that carries too little to reconstruct a whole value leaves the value in
/// its variant, unchanged.
pub proof fn lemma_enum_patch_refuses_variant_change(v: SampleEnum, source: SpecValue)
    requires
        !spec_sample_can(source),
        source matches SpecValue::Enum(e) && e.name != v.spec_enum().name,
    ensures
        v.patched(source) == v.model(),
{
}

/// Enum variant patch application: patching a struct variant with a
/// same-named patch that carries only the field `x` updates `x` and keeps
/// `y`.
pub proof fn lemma_enum_patch_same_variant(x: i32, y: i32, n: i32)
    ensures
        (SampleEnum::Move { x, y }).patched(
            SpecValue::Enum(
                SpecEnum {
                    name: "Move"@,
                    kind: VariantKind::Struct,
                    fields: seq![("x"@, SpecValue::Scalar(SpecScalar::I32(n)))],
                    elements: Seq::empty(),
                },
            ),
        ) == (SampleEnum::Move { x: n, y }).model(),
{
    lemma_distinct_names();
    let fs = seq![("x"@, SpecValue::Scalar(SpecScalar::I32(n)))];
    let source = SpecValue::Enum(
        SpecEnum {
            name: "Move"@,
            kind: VariantKind::Struct,
            fields: fs,
            elements: Seq::empty(),
        },
    );
    assert(spec_lookup(fs, "x"@) == Some(fs[0].1));
    lemma_lookup_one(fs, "y"@);
    assert(!spec_sample_can(source));
    let lhs = (SampleEnum::Move { x, y }).patched(source);
    let rhs = (SampleEnum::Move { x: n, y }).model();
    assert(lhs->Enum_0.fields[0] == rhs->Enum_0.fields[0]);
    assert(lhs->Enum_0.fields[1] == rhs->Enum_0.fields[1]);
    assert(lhs->Enum_0.fields =~= rhs->Enum_0.fields);
    assert(lhs =~~= rhs);
}

/// Unknown-field tolerance, stated from the missing side: a source without
/// the one required field reconstructs to nothing, never to a default value.
pub proof fn lemma_missing_field_gives_nothing(source: SpecValue)
    requires
        source matches SpecValue::Struct(s) ==> spec_lookup(s, "field"@) is None,
    ensures
        !<Foo as FromReflect>::can_reconstruct(source),
{
}

/// The three variant names are pairwise distinct character sequences, and
/// the two field names of the struct variant differ.
proof fn lemma_distinct_names()
    ensures
        "Idle"@ != "Move"@,
        "Idle"@ != "Shift"@,
        "Move"@ != "Shift"@,
        "x"@ != "y"@,
{
    reveal_strlit("Idle");
    reveal_strlit("Move");
    reveal_strlit("Shift");
    reveal_strlit("x");
    reveal_strlit("y");
    assert(("Idle"@)[0] == 'I' && ("Move"@)[0] == 'M' && ("Shift"@)[0] == 'S');
    assert(("x"@)[0] == 'x' && ("y"@)[0] == 'y');
}

/// First-match lookup in a two-field model, spelled out case by case.
proof fn lemma_lookup_two(fields: Seq<(Seq<char>, SpecValue)>, name: Seq<char>)
    requires
        fields.len() == 2,
    ensures
        spec_lookup(fields, name) == (if fields[0].0 == name {
            Some(fields[0].1)
        } else if fields[1].0 == name {
            Some(fields[1].1)
        } else {
            None
        }),
{
    reveal_with_fuel(spec_lookup, 3);
    assert(fields.subrange(1, 2) =~= seq![fields[1]]);
    assert(seq![fields[1]].subrange(1, 1) =~= Seq::<(Seq<char>, SpecValue)>::empty());
}

/// A lookup in a one-field model fails when the name differs.
proof fn lemma_lookup_one(fields: Seq<(Seq<char>, SpecValue)>, name: Seq<char>)
    requires
        fields.len() == 1,
        fields[0].0 != name,
    ensures
        spec_lookup(fields, name) is None,
{
    reveal_with_fuel(spec_lookup, 2);
    assert(fields.subrange(1, 1) =~= Seq::<(Seq<char>, SpecValue)>::empty());
}

} // verus!

