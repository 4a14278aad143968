//! The reflection adapter protocol.
//!
//! A reflectable type implements [`Reflect`]: it has a model (a
//! [`SpecValue`]), converts to the interchange [`Value`] form, clones, and
//! accepts in-place partial updates (`patch`). [`FromReflect`] adds
//! all-or-nothing reconstruction from any interchange value, and every
//! implementation proves the round-trip law: a value converted with
//! `to_value` reconstructs to itself.

use crate::value::{SpecValue, Value};
use vstd::prelude::*;

verus! {

/// First-match lookup of `name` among model fields.
pub open spec fn spec_lookup(fields: Seq<(Seq<char>, SpecValue)>, name: Seq<char>) -> Option<
    SpecValue,
>
    decreases fields,
{
    if fields.len() == 0 {
        None
    } else if fields[0].0 == name {
        Some(fields[0].1)
    } else {
        spec_lookup(fields.subrange(1, fields.len() as int), name)
    }
}

/// The index of the first field named `name` (meaningful when the lookup
/// succeeds).
pub open spec fn spec_first_index(fields: Seq<(Seq<char>, SpecValue)>, name: Seq<char>) -> int
    decreases fields,
{
    if fields.len() == 0 {
        0
    } else if fields[0].0 == name {
        0
    } else {
        1 + spec_first_index(fields.subrange(1, fields.len() as int), name)
    }
}

/// When nothing before position `i` matches and position `i` does, the
/// lookup returns the field at `i` and `i` is the first index.
pub proof fn lemma_lookup_first_match(
    fields: Seq<(Seq<char>, SpecValue)>,
    name: Seq<char>,
    i: int,
)
    requires
        0 <= i < fields.len(),
        fields[i].0 == name,
        forall|j: int| 0 <= j < i ==> fields[j].0 != name,
    ensures
        spec_lookup(fields, name) == Some(fields[i].1),
        spec_first_index(fields, name) == i,
    decreases i,
{
    if i > 0 {
        lemma_lookup_first_match(fields.subrange(1, fields.len() as int), name, i - 1);
    }
}

/// The lookup fails exactly when no field bears the name.
pub proof fn lemma_lookup_none(fields: Seq<(Seq<char>, SpecValue)>, name: Seq<char>)
    ensures
        (spec_lookup(fields, name) is None) <==> (forall|j: int|
            0 <= j < fields.len() ==> fields[j].0 != name),
    decreases fields,
{
    if fields.len() != 0 && fields[0].0 != name {
        let rest = fields.subrange(1, fields.len() as int);
        lemma_lookup_none(rest, name);
        if spec_lookup(fields, name) is None {
            assert forall|j: int| 0 <= j < fields.len() implies fields[j].0 != name by {
                if j > 0 {
                    assert(fields[j] == rest[j - 1]);
                }
            }
        }
        if forall|j: int| 0 <= j < fields.len() ==> fields[j].0 != name {
            assert forall|j: int| 0 <= j < rest.len() implies rest[j].0 != name by {
                assert(rest[j] == fields[j + 1]);
            }
        }
    }
}

/// The model of a struct-shaped value after a weak update from `source`
/// fields: every target field keeps its place and name, and takes the
/// source's value where the source names it; source fields that the target
/// lacks are skipped.
pub open spec fn spec_struct_patch(
    target: Seq<(Seq<char>, SpecValue)>,
    source: Seq<(Seq<char>, SpecValue)>,
) -> Seq<(Seq<char>, SpecValue)> {
    Seq::new(
        target.len(),
        |i: int|
            match spec_lookup(source, target[i].0) {
                Some(v) => (target[i].0, v),
                None => target[i],
            },
    )
}

/// Patch partiality: a weak struct update touches exactly the target fields
/// the source names. A field absent from the source keeps its value; a field
/// the source names takes the source's value; no field is added or removed.
pub proof fn lemma_struct_patch_partial(
    target: Seq<(Seq<char>, SpecValue)>,
    source: Seq<(Seq<char>, SpecValue)>,
    i: int,
)
    requires
        0 <= i < target.len(),
    ensures
        spec_struct_patch(target, source).len() == target.len(),
        spec_lookup(source, target[i].0) is None ==> spec_struct_patch(target, source)[i]
            == target[i],
        spec_lookup(source, target[i].0) matches Some(w) ==> spec_struct_patch(target, source)[i]
            == (target[i].0, w),
{
}

/// The model of a tuple-shaped value after a weak update from `source`
/// elements: positions the source covers are replaced, the rest kept.
pub open spec fn spec_tuple_patch(target: Seq<SpecValue>, source: Seq<SpecValue>) -> Seq<
    SpecValue,
> {
    Seq::new(
        target.len(),
        |i: int|
            if i < source.len() {
                source[i]
            } else {
                target[i]
            },
    )
}

/// The capability interface of a reflectable type: identity as a model,
/// conversion to the interchange form, deep cloning, and in-place partial
/// update.
pub trait Reflect: Sized {
    /// The mathematical model of this value's reflectable content.
    spec fn model(&self) -> SpecValue;

    /// The model this value has after a patch from a value with model
    /// `source`.
    spec fn patched(&self, source: SpecValue) -> SpecValue;

    /// Converts to the owned, self-describing interchange form.
    fn to_value(&self) -> (v: Value)
        ensures
            v@ == self.model(),
    ;

    /// A new, independently owned value with identical content.
    fn clone_reflect(&self) -> (r: Self)
        ensures
            r.model() == self.model(),
    ;

    /// In-place, partial, best-effort update from `source`. Patching never
    /// fails: mismatched shapes and absent fields are silently skipped.
    fn patch(&mut self, source: &Value)
        ensures
            final(self).model() == old(self).patched(source@),
    ;
}

/// All-or-nothing reconstruction of a typed value from any reflectable
/// source; no partial result is ever produced.
pub trait FromReflect: Reflect {
    /// Whether reconstruction succeeds from a value with model `source`.
    spec fn can_reconstruct(source: SpecValue) -> bool;

    /// The model of the reconstructed value, when reconstruction succeeds.
    spec fn reconstructed(source: SpecValue) -> SpecValue;

    /// Rebuilds a typed value from the source, or nothing when any required
    /// part is missing or has the wrong shape.
    fn from_reflect(source: &Value) -> (r: Option<Self>)
        ensures
            r is Some <==> Self::can_reconstruct(source@),
            r matches Some(t) ==> t.model() == Self::reconstructed(source@),
    ;

    /// Round-trip law: the interchange form of any value of this type
    /// reconstructs, and reconstructs to the same model.
    proof fn lemma_round_trip(v: Self)
        ensures
            Self::can_reconstruct(v.model()),
            Self::reconstructed(v.model()) == v.model(),
    ;
}

impl Reflect for Value {
    open spec fn model(&self) -> SpecValue {
        self@
    }

    /// A value patched with another value is replaced by it wholesale: the
    /// interchange form always matches its own concrete type.
    open spec fn patched(&self, source: SpecValue) -> SpecValue {
        source
    }

    fn to_value(&self) -> (v: Value) {
        self.clone_value()
    }

    fn clone_reflect(&self) -> (r: Value) {
        self.clone_value()
    }

    fn patch(&mut self, source: &Value) {
        *self = source.clone_value();
    }
}

impl FromReflect for Value {
    /// Every reflectable datum is already representable as a value.
    open spec fn can_reconstruct(source: SpecValue) -> bool {
        true
    }

    open spec fn reconstructed(source: SpecValue) -> SpecValue {
        source
    }

    fn from_reflect(source: &Value) -> (r: Option<Value>) {
        Some(source.clone_value())
    }

    proof fn lemma_round_trip(v: Value) {
    }
}

} // verus!
