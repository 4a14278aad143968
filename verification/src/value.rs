//! The owned, self-describing `Value` union and its mathematical model.
//!
//! A `Value` represents any reflectable datum: a scalar, a struct (ordered
//! field-name/value pairs), a tuple struct (ordered values), an enum variant
//! (name, kind and payload), a list, or a map. All contracts in this crate
//! speak about values through the spec-level model [`SpecValue`].

use vstd::prelude::*;

verus! {

/// The shape of an enum variant: no payload, positional payload, or named
/// fields.
#[derive(Clone, Copy, PartialEq, Eq, Structural, Debug)]
pub enum VariantKind {
    Unit,
    Tuple,
    Struct,
}

/// Mathematical model of a scalar: integers stay themselves, strings become
/// character sequences.
#[verifier::ext_equal]
pub enum SpecScalar {
    Unit,
    Bool(bool),
    I32(i32),
    I64(i64),
    U32(u32),
    U64(u64),
    Usize(usize),
    Str(Seq<char>),
}

/// Mathematical model of an enum-variant value: the active variant's name,
/// its kind, and its payload (named fields for a struct variant, ordered
/// elements for a tuple variant).
#[verifier::ext_equal]
pub struct SpecEnum {
    pub name: Seq<char>,
    pub kind: VariantKind,
    pub fields: Seq<(Seq<char>, SpecValue)>,
    pub elements: Seq<SpecValue>,
}

/// Mathematical model of a reflectable value.
#[verifier::ext_equal]
pub enum SpecValue {
    Scalar(SpecScalar),
    Struct(Seq<(Seq<char>, SpecValue)>),
    TupleStruct(Seq<SpecValue>),
    Enum(SpecEnum),
    List(Seq<SpecValue>),
    Mapping(Seq<(SpecValue, SpecValue)>),
}

/// An owned scalar: the primitive leaves of the `Value` tree.
pub enum ScalarValue {
    Unit,
    Bool(bool),
    I32(i32),
    I64(i64),
    U32(u32),
    U64(u64),
    Usize(usize),
    String(String),
}

impl View for ScalarValue {
    type V = SpecScalar;

    open spec fn view(&self) -> SpecScalar {
        match self {
            ScalarValue::Unit => SpecScalar::Unit,
            ScalarValue::Bool(b) => SpecScalar::Bool(*b),
            ScalarValue::I32(n) => SpecScalar::I32(*n),
            ScalarValue::I64(n) => SpecScalar::I64(*n),
            ScalarValue::U32(n) => SpecScalar::U32(*n),
            ScalarValue::U64(n) => SpecScalar::U64(*n),
            ScalarValue::Usize(n) => SpecScalar::Usize(*n),
            ScalarValue::String(s) => SpecScalar::Str(s@),
        }
    }
}

/// An ordered mapping from field names to values, standing in for any
/// struct-shaped datum.
pub struct StructValue {
    pub fields: Vec<(String, Value)>,
}

/// An ordered sequence of values, standing in for any tuple-shaped datum.
pub struct TupleStructValue {
    pub elements: Vec<Value>,
}

/// One enum variant's worth of data: the variant's name, its kind, and the
/// payload matching that kind (named fields or positional elements).
pub struct EnumValue {
    pub name: String,
    pub kind: VariantKind,
    pub fields: Vec<(String, Value)>,
    pub elements: Vec<Value>,
}

/// The closed union of every reflectable shape.
pub enum Value {
    Scalar(ScalarValue),
    Struct(StructValue),
    TupleStruct(TupleStructValue),
    Enum(EnumValue),
    List(Vec<Value>),
    Mapping(Vec<(Value, Value)>),
}

/// Model of a value.
pub open spec fn value_model(v: Value) -> SpecValue
    decreases v,
{
    match v {
        Value::Scalar(s) => SpecValue::Scalar(s@),
        Value::Struct(sv) => SpecValue::Struct(fields_model(sv.fields@)),
        Value::TupleStruct(tv) => SpecValue::TupleStruct(values_model(tv.elements@)),
        Value::Enum(ev) => SpecValue::Enum(
            SpecEnum {
                name: ev.name@,
                kind: ev.kind,
                fields: fields_model(ev.fields@),
                elements: values_model(ev.elements@),
            },
        ),
        Value::List(items) => SpecValue::List(values_model(items@)),
        Value::Mapping(entries) => SpecValue::Mapping(entries_model(entries@)),
    }
}

/// Model of a sequence of named fields.
pub open spec fn fields_model(s: Seq<(String, Value)>) -> Seq<(Seq<char>, SpecValue)>
    decreases s,
{
    if s.len() == 0 {
        Seq::empty()
    } else {
        seq![(s[0].0@, value_model(s[0].1))] + fields_model(s.subrange(1, s.len() as int))
    }
}

/// Model of a sequence of values.
pub open spec fn values_model(s: Seq<Value>) -> Seq<SpecValue>
    decreases s,
{
    if s.len() == 0 {
        Seq::empty()
    } else {
        seq![value_model(s[0])] + values_model(s.subrange(1, s.len() as int))
    }
}

/// Model of a sequence of map entries.
pub open spec fn entries_model(s: Seq<(Value, Value)>) -> Seq<(SpecValue, SpecValue)>
    decreases s,
{
    if s.len() == 0 {
        Seq::empty()
    } else {
        seq![(value_model(s[0].0), value_model(s[0].1))] + entries_model(
            s.subrange(1, s.len() as int),
        )
    }
}

/// A field sequence's model has one entry per field.
pub broadcast proof fn lemma_fields_model_len(s: Seq<(String, Value)>)
    ensures
        #[trigger] fields_model(s).len() == s.len(),
    decreases s,
{
    if s.len() != 0 {
        lemma_fields_model_len(s.subrange(1, s.len() as int));
    }
}

/// The model of a field sequence is the model of each field, in order.
pub broadcast proof fn lemma_fields_model_index(s: Seq<(String, Value)>, i: int)
    requires
        0 <= i < s.len(),
    ensures
        #[trigger] fields_model(s)[i] == (s[i].0@, value_model(s[i].1)),
    decreases s,
{
    lemma_fields_model_len(s);
    if i > 0 {
        lemma_fields_model_index(s.subrange(1, s.len() as int), i - 1);
    }
}

/// A value sequence's model has one entry per value.
pub broadcast proof fn lemma_values_model_len(s: Seq<Value>)
    ensures
        #[trigger] values_model(s).len() == s.len(),
    decreases s,
{
    if s.len() != 0 {
        lemma_values_model_len(s.subrange(1, s.len() as int));
    }
}

/// The model of a value sequence is the model of each value, in order.
pub broadcast proof fn lemma_values_model_index(s: Seq<Value>, i: int)
    requires
        0 <= i < s.len(),
    ensures
        #[trigger] values_model(s)[i] == value_model(s[i]),
    decreases s,
{
    lemma_values_model_len(s);
    if i > 0 {
        lemma_values_model_index(s.subrange(1, s.len() as int), i - 1);
    }
}

/// An entry sequence's model has one entry per pair.
pub broadcast proof fn lemma_entries_model_len(s: Seq<(Value, Value)>)
    ensures
        #[trigger] entries_model(s).len() == s.len(),
    decreases s,
{
    if s.len() != 0 {
        lemma_entries_model_len(s.subrange(1, s.len() as int));
    }
}

/// The model of an entry sequence is the model of each pair, in order.
pub broadcast proof fn lemma_entries_model_index(s: Seq<(Value, Value)>, i: int)
    requires
        0 <= i < s.len(),
    ensures
        #[trigger] entries_model(s)[i] == (value_model(s[i].0), value_model(s[i].1)),
    decreases s,
{
    lemma_entries_model_len(s);
    if i > 0 {
        lemma_entries_model_index(s.subrange(1, s.len() as int), i - 1);
    }
}

/// The index and length facts about the three sequence models, together.
pub broadcast group group_value_model_facts {
    lemma_fields_model_len,
    lemma_fields_model_index,
    lemma_values_model_len,
    lemma_values_model_index,
    lemma_entries_model_len,
    lemma_entries_model_index,
}

impl View for Value {
    type V = SpecValue;

    open spec fn view(&self) -> SpecValue {
        value_model(*self)
    }
}

impl View for StructValue {
    type V = Seq<(Seq<char>, SpecValue)>;

    open spec fn view(&self) -> Seq<(Seq<char>, SpecValue)> {
        fields_model(self.fields@)
    }
}

impl View for TupleStructValue {
    type V = Seq<SpecValue>;

    open spec fn view(&self) -> Seq<SpecValue> {
        values_model(self.elements@)
    }
}

impl View for EnumValue {
    type V = SpecEnum;

    open spec fn view(&self) -> SpecEnum {
        SpecEnum {
            name: self.name@,
            kind: self.kind,
            fields: fields_model(self.fields@),
            elements: values_model(self.elements@),
        }
    }
}

/// A borrowed view of a value, naming the one shape the value has; the
/// single dispatch point every generic algorithm branches on.
pub enum ReflectRef<'a> {
    Scalar(&'a ScalarValue),
    Struct(&'a StructValue),
    TupleStruct(&'a TupleStructValue),
    Enum(&'a EnumValue),
    List(&'a Vec<Value>),
    Mapping(&'a Vec<(Value, Value)>),
}

impl Value {
    /// Returns the one shape view this value supports.
    pub fn reflect_ref(&self) -> (r: ReflectRef<'_>)
        ensures
            match r {
                ReflectRef::Scalar(s) => self@ == SpecValue::Scalar(s@),
                ReflectRef::Struct(s) => self@ == SpecValue::Struct(s@),
                ReflectRef::TupleStruct(t) => self@ == SpecValue::TupleStruct(t@),
                ReflectRef::Enum(e) => self@ == SpecValue::Enum(e@),
                ReflectRef::List(items) => self@ == SpecValue::List(values_model(items@)),
                ReflectRef::Mapping(entries) => self@ == SpecValue::Mapping(
                    entries_model(entries@),
                ),
            },
    {
        match self {
            Value::Scalar(s) => ReflectRef::Scalar(s),
            Value::Struct(s) => ReflectRef::Struct(s),
            Value::TupleStruct(t) => ReflectRef::TupleStruct(t),
            Value::Enum(e) => ReflectRef::Enum(e),
            Value::List(items) => ReflectRef::List(items),
            Value::Mapping(entries) => ReflectRef::Mapping(entries),
        }
    }

    /// The struct view of this value, or nothing when its shape is not
    /// `Struct`.
    pub fn as_struct(&self) -> (r: Option<&StructValue>)
        ensures
            match r {
                Some(s) => self@ == SpecValue::Struct(s@),
                None => !(self@ is Struct),
            },
    {
        match self {
            Value::Struct(s) => Some(s),
            _ => None,
        }
    }

    /// The tuple-struct view of this value, or nothing when its shape is not
    /// `TupleStruct`.
    pub fn as_tuple_struct(&self) -> (r: Option<&TupleStructValue>)
        ensures
            match r {
                Some(t) => self@ == SpecValue::TupleStruct(t@),
                None => !(self@ is TupleStruct),
            },
    {
        match self {
            Value::TupleStruct(t) => Some(t),
            _ => None,
        }
    }

    /// The enum view of this value, or nothing when its shape is not `Enum`.
    pub fn as_enum(&self) -> (r: Option<&EnumValue>)
        ensures
            match r {
                Some(e) => self@ == SpecValue::Enum(e@),
                None => !(self@ is Enum),
            },
    {
        match self {
            Value::Enum(e) => Some(e),
            _ => None,
        }
    }

    /// The scalar inside this value, or nothing when its shape is not
    /// `Scalar`.
    pub fn as_scalar(&self) -> (r: Option<&ScalarValue>)
        ensures
            match r {
                Some(s) => self@ == SpecValue::Scalar(s@),
                None => !(self@ is Scalar),
            },
    {
        match self {
            Value::Scalar(s) => Some(s),
            _ => None,
        }
    }

    /// Rebuilds this value as a new, independently owned value with the same
    /// model (deep copy).
    pub fn clone_value(&self) -> (r: Value)
        ensures
            r@ == self@,
        decreases *self,
    {
        match self {
            Value::Scalar(s) => Value::Scalar(s.clone_scalar()),
            Value::Struct(sv) => Value::Struct(StructValue { fields: clone_fields(&sv.fields) }),
            Value::TupleStruct(tv) => Value::TupleStruct(
                TupleStructValue { elements: clone_values(&tv.elements) },
            ),
            Value::Enum(ev) => Value::Enum(
                EnumValue {
                    name: ev.name.clone(),
                    kind: ev.kind,
                    fields: clone_fields(&ev.fields),
                    elements: clone_values(&ev.elements),
                },
            ),
            Value::List(items) => Value::List(clone_values(items)),
            Value::Mapping(entries) => Value::Mapping(clone_entries(entries)),
        }
    }
}

/// Deep copy of a named-field sequence, preserving its model.
pub(crate) fn clone_fields(fields: &Vec<(String, Value)>) -> (r: Vec<(String, Value)>)
    ensures
        fields_model(r@) == fields_model(fields@),
        r@.len() == fields@.len(),
    decreases fields@,
{
    broadcast use group_value_model_facts;

    let mut r: Vec<(String, Value)> = Vec::new();
    let mut i: usize = 0;
    while i < fields.len()
        invariant
            i <= fields.len(),
            r@.len() == i,
            forall|j: int|
                0 <= j < i ==> r@[j].0@ == fields@[j].0@ && value_model(r@[j].1) == value_model(
                    fields@[j].1,
                ),
        decreases fields.len() - i,
    {
        let pair = &fields[i];
        r.push((pair.0.clone(), pair.1.clone_value()));
        i += 1;
    }
    proof {
        assert(fields_model(r@) =~= fields_model(fields@));
    }
    r
}

/// Deep copy of a value sequence, preserving its model.
pub(crate) fn clone_values(values: &Vec<Value>) -> (r: Vec<Value>)
    ensures
        values_model(r@) == values_model(values@),
        r@.len() == values@.len(),
    decreases values@,
{
    broadcast use group_value_model_facts;

    let mut r: Vec<Value> = Vec::new();
    let mut i: usize = 0;
    while i < values.len()
        invariant
            i <= values.len(),
            r@.len() == i,
            forall|j: int| 0 <= j < i ==> value_model(r@[j]) == value_model(values@[j]),
        decreases values.len() - i,
    {
        r.push(values[i].clone_value());
        i += 1;
    }
    proof {
        assert(values_model(r@) =~= values_model(values@));
    }
    r
}

/// Deep copy of a map-entry sequence, preserving its model.
pub(crate) fn clone_entries(entries: &Vec<(Value, Value)>) -> (r: Vec<(Value, Value)>)
    ensures
        entries_model(r@) == entries_model(entries@),
        r@.len() == entries@.len(),
    decreases entries@,
{
    broadcast use group_value_model_facts;

    let mut r: Vec<(Value, Value)> = Vec::new();
    let mut i: usize = 0;
    while i < entries.len()
        invariant
            i <= entries.len(),
            r@.len() == i,
            forall|j: int|
                0 <= j < i ==> value_model(r@[j].0) == value_model(entries@[j].0) && value_model(
                    r@[j].1,
                ) == value_model(entries@[j].1),
        decreases entries.len() - i,
    {
        let pair = &entries[i];
        r.push((pair.0.clone_value(), pair.1.clone_value()));
        i += 1;
    }
    proof {
        assert(entries_model(r@) =~= entries_model(entries@));
    }
    r
}

impl ScalarValue {
    /// Rebuilds this scalar as a new, independently owned scalar.
    pub fn clone_scalar(&self) -> (r: ScalarValue)
        ensures
            r@ == self@,
    {
        match self {
            ScalarValue::Unit => ScalarValue::Unit,
            ScalarValue::Bool(b) => ScalarValue::Bool(*b),
            ScalarValue::I32(n) => ScalarValue::I32(*n),
            ScalarValue::I64(n) => ScalarValue::I64(*n),
            ScalarValue::U32(n) => ScalarValue::U32(*n),
            ScalarValue::U64(n) => ScalarValue::U64(*n),
            ScalarValue::Usize(n) => ScalarValue::Usize(*n),
            ScalarValue::String(s) => ScalarValue::String(s.clone()),
        }
    }
}

} // verus!
