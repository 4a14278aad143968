//! A runtime reflection core: values of structs and enums can be inspected,
//! cloned, patched and rebuilt through a uniform dynamic interface.
//!
//! The interchange format is [`value::Value`], a closed, owned union able to
//! represent any reflectable primitive, struct, tuple-struct, enum variant,
//! list or map. Types participate by implementing the adapter protocol of
//! [`reflect::Reflect`] and [`reflect::FromReflect`]; the contracts of those
//! traits pin down what `to_value`, `patch` and `from_reflect` do, and every
//! implementation proves the round-trip law.

pub mod enum_value;
pub mod reflect;
pub mod sample;
pub mod scalars;
pub mod struct_value;
pub mod tuple_struct_value;
pub mod type_info;
pub mod value;
