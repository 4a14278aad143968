//! Adapter implementations for the scalar leaves: integers, booleans and
//! strings. A scalar's patch replaces it exactly when the source is a scalar
//! of the same kind; anything else is skipped.

use crate::reflect::{FromReflect, Reflect};
use crate::value::{ScalarValue, SpecScalar, SpecValue, Value};
use vstd::prelude::*;

verus! {

impl Reflect for i32 {
    open spec fn model(&self) -> SpecValue {
        SpecValue::Scalar(SpecScalar::I32(*self))
    }

    open spec fn patched(&self, source: SpecValue) -> SpecValue {
        match source {
            SpecValue::Scalar(SpecScalar::I32(n)) => SpecValue::Scalar(SpecScalar::I32(n)),
            _ => self.model(),
        }
    }

    fn to_value(&self) -> (v: Value) {
        Value::Scalar(ScalarValue::I32(*self))
    }

    fn clone_reflect(&self) -> (r: i32) {
        *self
    }

    fn patch(&mut self, source: &Value) {
        if let Value::Scalar(ScalarValue::I32(n)) = source {
            *self = *n;
        }
    }
}

impl FromReflect for i32 {
    open spec fn can_reconstruct(source: SpecValue) -> bool {
        source matches SpecValue::Scalar(SpecScalar::I32(_))
    }

    open spec fn reconstructed(source: SpecValue) -> SpecValue {
        source
    }

    fn from_reflect(source: &Value) -> (r: Option<i32>) {
        if let Value::Scalar(ScalarValue::I32(n)) = source {
            Some(*n)
        } else {
            None
        }
    }

    proof fn lemma_round_trip(v: i32) {
    }
}

impl Reflect for i64 {
    open spec fn model(&self) -> SpecValue {
        SpecValue::Scalar(SpecScalar::I64(*self))
    }

    open spec fn patched(&self, source: SpecValue) -> SpecValue {
        match source {
            SpecValue::Scalar(SpecScalar::I64(n)) => SpecValue::Scalar(SpecScalar::I64(n)),
            _ => self.model(),
        }
    }

    fn to_value(&self) -> (v: Value) {
        Value::Scalar(ScalarValue::I64(*self))
    }

    fn clone_reflect(&self) -> (r: i64) {
        *self
    }

    fn patch(&mut self, source: &Value) {
        if let Value::Scalar(ScalarValue::I64(n)) = source {
            *self = *n;
        }
    }
}

impl FromReflect for i64 {
    open spec fn can_reconstruct(source: SpecValue) -> bool {
        source matches SpecValue::Scalar(SpecScalar::I64(_))
    }

    open spec fn reconstructed(source: SpecValue) -> SpecValue {
        source
    }

    fn from_reflect(source: &Value) -> (r: Option<i64>) {
        if let Value::Scalar(ScalarValue::I64(n)) = source {
            Some(*n)
        } else {
            None
        }
    }

    proof fn lemma_round_trip(v: i64) {
    }
}

impl Reflect for u32 {
    open spec fn model(&self) -> SpecValue {
        SpecValue::Scalar(SpecScalar::U32(*self))
    }

    open spec fn patched(&self, source: SpecValue) -> SpecValue {
        match source {
            SpecValue::Scalar(SpecScalar::U32(n)) => SpecValue::Scalar(SpecScalar::U32(n)),
            _ => self.model(),
        }
    }

    fn to_value(&self) -> (v: Value) {
        Value::Scalar(ScalarValue::U32(*self))
    }

    fn clone_reflect(&self) -> (r: u32) {
        *self
    }

    fn patch(&mut self, source: &Value) {
        if let Value::Scalar(ScalarValue::U32(n)) = source {
            *self = *n;
        }
    }
}

impl FromReflect for u32 {
    open spec fn can_reconstruct(source: SpecValue) -> bool {
        source matches SpecValue::Scalar(SpecScalar::U32(_))
    }

    open spec fn reconstructed(source: SpecValue) -> SpecValue {
        source
    }

    fn from_reflect(source: &Value) -> (r: Option<u32>) {
        if let Value::Scalar(ScalarValue::U32(n)) = source {
            Some(*n)
        } else {
            None
        }
    }

    proof fn lemma_round_trip(v: u32) {
    }
}

impl Reflect for u64 {
    open spec fn model(&self) -> SpecValue {
        SpecValue::Scalar(SpecScalar::U64(*self))
    }

    open spec fn patched(&self, source: SpecValue) -> SpecValue {
        match source {
            SpecValue::Scalar(SpecScalar::U64(n)) => SpecValue::Scalar(SpecScalar::U64(n)),
            _ => self.model(),
        }
    }

    fn to_value(&self) -> (v: Value) {
        Value::Scalar(ScalarValue::U64(*self))
    }

    fn clone_reflect(&self) -> (r: u64) {
        *self
    }

    fn patch(&mut self, source: &Value) {
        if let Value::Scalar(ScalarValue::U64(n)) = source {
            *self = *n;
        }
    }
}

impl FromReflect for u64 {
    open spec fn can_reconstruct(source: SpecValue) -> bool {
        source matches SpecValue::Scalar(SpecScalar::U64(_))
    }

    open spec fn reconstructed(source: SpecValue) -> SpecValue {
        source
    }

    fn from_reflect(source: &Value) -> (r: Option<u64>) {
        if let Value::Scalar(ScalarValue::U64(n)) = source {
            Some(*n)
        } else {
            None
        }
    }

    proof fn lemma_round_trip(v: u64) {
    }
}

impl Reflect for usize {
    open spec fn model(&self) -> SpecValue {
        SpecValue::Scalar(SpecScalar::Usize(*self))
    }

    open spec fn patched(&self, source: SpecValue) -> SpecValue {
        match source {
            SpecValue::Scalar(SpecScalar::Usize(n)) => SpecValue::Scalar(SpecScalar::Usize(n)),
            _ => self.model(),
        }
    }

    fn to_value(&self) -> (v: Value) {
        Value::Scalar(ScalarValue::Usize(*self))
    }

    fn clone_reflect(&self) -> (r: usize) {
        *self
    }

    fn patch(&mut self, source: &Value) {
        if let Value::Scalar(ScalarValue::Usize(n)) = source {
            *self = *n;
        }
    }
}

impl FromReflect for usize {
    open spec fn can_reconstruct(source: SpecValue) -> bool {
        source matches SpecValue::Scalar(SpecScalar::Usize(_))
    }

    open spec fn reconstructed(source: SpecValue) -> SpecValue {
        source
    }

    fn from_reflect(source: &Value) -> (r: Option<usize>) {
        if let Value::Scalar(ScalarValue::Usize(n)) = source {
            Some(*n)
        } else {
            None
        }
    }

    proof fn lemma_round_trip(v: usize) {
    }
}

impl Reflect for bool {
    open spec fn model(&self) -> SpecValue {
        SpecValue::Scalar(SpecScalar::Bool(*self))
    }

    open spec fn patched(&self, source: SpecValue) -> SpecValue {
        match source {
            SpecValue::Scalar(SpecScalar::Bool(b)) => SpecValue::Scalar(SpecScalar::Bool(b)),
            _ => self.model(),
        }
    }

    fn to_value(&self) -> (v: Value) {
        Value::Scalar(ScalarValue::Bool(*self))
    }

    fn clone_reflect(&self) -> (r: bool) {
        *self
    }

    fn patch(&mut self, source: &Value) {
        if let Value::Scalar(ScalarValue::Bool(b)) = source {
            *self = *b;
        }
    }
}

impl FromReflect for bool {
    open spec fn can_reconstruct(source: SpecValue) -> bool {
        source matches SpecValue::Scalar(SpecScalar::Bool(_))
    }

    open spec fn reconstructed(source: SpecValue) -> SpecValue {
        source
    }

    fn from_reflect(source: &Value) -> (r: Option<bool>) {
        if let Value::Scalar(ScalarValue::Bool(b)) = source {
            Some(*b)
        } else {
            None
        }
    }

    proof fn lemma_round_trip(v: bool) {
    }
}

impl Reflect for String {
    open spec fn model(&self) -> SpecValue {
        SpecValue::Scalar(SpecScalar::Str(self@))
    }

    open spec fn patched(&self, source: SpecValue) -> SpecValue {
        match source {
            SpecValue::Scalar(SpecScalar::Str(s)) => SpecValue::Scalar(SpecScalar::Str(s)),
            _ => self.model(),
        }
    }

    fn to_value(&self) -> (v: Value) {
        Value::Scalar(ScalarValue::String(self.clone()))
    }

    fn clone_reflect(&self) -> (r: String) {
        self.clone()
    }

    fn patch(&mut self, source: &Value) {
        if let Value::Scalar(ScalarValue::String(s)) = source {
            *self = s.clone();
        }
    }
}

impl FromReflect for String {
    open spec fn can_reconstruct(source: SpecValue) -> bool {
        source matches SpecValue::Scalar(SpecScalar::Str(_))
    }

    open spec fn reconstructed(source: SpecValue) -> SpecValue {
        source
    }

    fn from_reflect(source: &Value) -> (r: Option<String>) {
        if let Value::Scalar(ScalarValue::String(s)) = source {
            Some(s.clone())
        } else {
            None
        }
    }

    proof fn lemma_round_trip(v: String) {
    }
}

} // verus!
