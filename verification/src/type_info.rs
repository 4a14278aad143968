//! Immutable, per-type structural descriptors: field names, field types,
//! variant names and kinds, and an attached key/value metadata bag that the
//! reflection core never interprets. Nested field types are described
//! opaquely by their type name; their own descriptors are obtained on demand
//! from the field type's `type_info`.

use crate::reflect::{lemma_lookup_first_match, lemma_lookup_none, spec_lookup};
use crate::sample::{Bar, Baz, Foo, Nested, SampleEnum};
use crate::value::{fields_model, group_value_model_facts, Value, VariantKind};
use vstd::prelude::*;

verus! {

/// One field of a struct shape or of a variant's payload: its name (nothing
/// for a positional field), the name of its type, and attached metadata.
pub struct FieldInfo {
    pub name: Option<String>,
    pub ty_name: String,
    pub meta: Vec<(String, Value)>,
}

/// One variant of an enum: its name, its kind, its payload fields, and
/// attached metadata.
pub struct VariantInfo {
    pub name: String,
    pub kind: VariantKind,
    pub fields: Vec<FieldInfo>,
    pub meta: Vec<(String, Value)>,
}

/// The descriptor of a struct-shaped type.
pub struct StructInfo {
    pub ty_name: String,
    pub fields: Vec<FieldInfo>,
    pub meta: Vec<(String, Value)>,
}

/// The descriptor of an enum type.
pub struct EnumInfo {
    pub ty_name: String,
    pub variants: Vec<VariantInfo>,
    pub meta: Vec<(String, Value)>,
}

/// The descriptor of a scalar or otherwise opaque type.
pub struct OpaqueInfo {
    pub ty_name: String,
    pub meta: Vec<(String, Value)>,
}

/// The structural descriptor of a reflectable type.
pub enum TypeInfo {
    Struct(StructInfo),
    Enum(EnumInfo),
    Opaque(OpaqueInfo),
}

/// The metadata value stored under `key`, or nothing when the bag has no
/// such key; the bag's meaning is left entirely to the type's author.
pub fn meta_value<'a>(meta: &'a Vec<(String, Value)>, key: &str) -> (r: Option<&'a Value>)
    ensures
        match r {
            Some(v) => spec_lookup(fields_model(meta@), key@) == Some(v@),
            None => spec_lookup(fields_model(meta@), key@) is None,
        },
{
    proof {
        broadcast use group_value_model_facts;

    }
    let wanted: String = key.to_owned();
    let n = meta.len();
    let mut i: usize = 0;
    while i < n
        invariant
            n == meta@.len(),
            wanted@ == key@,
            0 <= i <= n,
            forall|j: int| 0 <= j < i ==> fields_model(meta@)[j].0 != key@,
        decreases n - i,
    {
        proof {
            broadcast use group_value_model_facts;

        }
        if meta[i].0 == wanted {
            proof {
                lemma_lookup_first_match(fields_model(meta@), key@, i as int);
            }
            return Some(&meta[i].1);
        }
        i += 1;
    }
    proof {
        lemma_lookup_none(fields_model(meta@), key@);
    }
    None
}

impl Foo {
    /// The descriptor of this type: one named `i32` field.
    pub fn type_info() -> (r: TypeInfo)
        ensures
            r matches TypeInfo::Struct(info) && info.ty_name@ == "Foo"@ && info.fields@.len()
                == 1 && (info.fields@[0].name matches Some(n) && n@ == "field"@)
                && info.fields@[0].ty_name@ == "i32"@,
    {
        TypeInfo::Struct(
            StructInfo {
                ty_name: "Foo".to_owned(),
                fields: vec![
                    FieldInfo {
                        name: Some("field".to_owned()),
                        ty_name: "i32".to_owned(),
                        meta: Vec::new(),
                    },
                ],
                meta: Vec::new(),
            },
        )
    }
}

impl Baz {
    /// The descriptor of this type: one named `i32` field.
    pub fn type_info() -> (r: TypeInfo)
        ensures
            r matches TypeInfo::Struct(info) && info.ty_name@ == "Baz"@ && info.fields@.len()
                == 1 && (info.fields@[0].name matches Some(n) && n@ == "qux"@)
                && info.fields@[0].ty_name@ == "i32"@,
    {
        TypeInfo::Struct(
            StructInfo {
                ty_name: "Baz".to_owned(),
                fields: vec![
                    FieldInfo {
                        name: Some("qux".to_owned()),
                        ty_name: "i32".to_owned(),
                        meta: Vec::new(),
                    },
                ],
                meta: Vec::new(),
            },
        )
    }
}

impl Bar {
    /// The descriptor of this type: one named field whose own type is
    /// described opaquely, expandable through `Baz::type_info`.
    pub fn type_info() -> (r: TypeInfo)
        ensures
            r matches TypeInfo::Struct(info) && info.ty_name@ == "Bar"@ && info.fields@.len()
                == 1 && (info.fields@[0].name matches Some(n) && n@ == "baz"@)
                && info.fields@[0].ty_name@ == "Baz"@,
    {
        TypeInfo::Struct(
            StructInfo {
                ty_name: "Bar".to_owned(),
                fields: vec![
                    FieldInfo {
                        name: Some("baz".to_owned()),
                        ty_name: "Baz".to_owned(),
                        meta: Vec::new(),
                    },
                ],
                meta: Vec::new(),
            },
        )
    }
}

impl Nested {
    /// The descriptor of this type: one named field whose own type is
    /// described opaquely, expandable through `Bar::type_info`.
    pub fn type_info() -> (r: TypeInfo)
        ensures
            r matches TypeInfo::Struct(info) && info.ty_name@ == "Nested"@ && info.fields@.len()
                == 1 && (info.fields@[0].name matches Some(n) && n@ == "bar"@)
                && info.fields@[0].ty_name@ == "Bar"@,
    {
        TypeInfo::Struct(
            StructInfo {
                ty_name: "Nested".to_owned(),
                fields: vec![
                    FieldInfo {
                        name: Some("bar".to_owned()),
                        ty_name: "Bar".to_owned(),
                        meta: Vec::new(),
                    },
                ],
                meta: Vec::new(),
            },
        )
    }
}

impl SampleEnum {
    /// The descriptor of this type: three variants, one of each kind, whose
    /// names and kinds agree with what `variant_name` and `variant_kind`
    /// report on any value of the type.
    pub fn type_info() -> (r: TypeInfo)
        ensures
            r matches TypeInfo::Enum(info) && info.ty_name@ == "SampleEnum"@
                && info.variants@.len() == 3 && info.variants@[0].name@ == "Idle"@
                && info.variants@[0].kind == VariantKind::Unit && info.variants@[0].fields@.len()
                == 0 && info.variants@[1].name@ == "Move"@ && info.variants@[1].kind
                == VariantKind::Struct && info.variants@[1].fields@.len() == 2
                && (info.variants@[1].fields@[0].name matches Some(n) && n@ == "x"@)
                && (info.variants@[1].fields@[1].name matches Some(n) && n@ == "y"@)
                && info.variants@[2].name@ == "Shift"@ && info.variants@[2].kind
                == VariantKind::Tuple && info.variants@[2].fields@.len() == 2,
    {
        TypeInfo::Enum(
            EnumInfo {
                ty_name: "SampleEnum".to_owned(),
                variants: vec![
                    VariantInfo {
                        name: "Idle".to_owned(),
                        kind: VariantKind::Unit,
                        fields: Vec::new(),
                        meta: Vec::new(),
                    },
                    VariantInfo {
                        name: "Move".to_owned(),
                        kind: VariantKind::Struct,
                        fields: vec![
                            FieldInfo {
                                name: Some("x".to_owned()),
                                ty_name: "i32".to_owned(),
                                meta: Vec::new(),
                            },
                            FieldInfo {
                                name: Some("y".to_owned()),
                                ty_name: "i32".to_owned(),
                                meta: Vec::new(),
                            },
                        ],
                        meta: Vec::new(),
                    },
                    VariantInfo {
                        name: "Shift".to_owned(),
                        kind: VariantKind::Tuple,
                        fields: vec![
                            FieldInfo {
                                name: None,
                                ty_name: "i32".to_owned(),
                                meta: Vec::new(),
                            },
                            FieldInfo {
                                name: None,
                                ty_name: "i32".to_owned(),
                                meta: Vec::new(),
                            },
                        ],
                        meta: Vec::new(),
                    },
                ],
                meta: Vec::new(),
            },
        )
    }
}

} // verus!
