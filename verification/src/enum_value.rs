//! Variant-based introspection for enum-shaped values.
//!
//! An `EnumValue` is always in exactly one variant: it carries the variant's
//! name, its kind, and the payload matching that kind. Field access is scoped
//! to the active variant; asking with the wrong accessor for the variant's
//! kind finds nothing.

use crate::reflect::{
    lemma_lookup_first_match,
    lemma_lookup_none,
    spec_first_index,
    spec_lookup,
    FromReflect,
    Reflect,
};
use crate::value::{
    clone_fields,
    clone_values,
    fields_model,
    group_value_model_facts,
    values_model,
    EnumValue,
    SpecEnum,
    SpecValue,
    Value,
    VariantKind,
};
use vstd::prelude::*;

verus! {

impl EnumValue {
    /// Whether the payload matches the variant's kind: a unit variant has no
    /// payload, a tuple variant only elements, a struct variant only fields.
    pub open spec fn wf(&self) -> bool {
        match self@.kind {
            VariantKind::Unit => self@.fields.len() == 0 && self@.elements.len() == 0,
            VariantKind::Tuple => self@.fields.len() == 0,
            VariantKind::Struct => self@.elements.len() == 0,
        }
    }

    /// A unit variant called `name`.
    pub fn new_unit_variant(name: &str) -> (r: EnumValue)
        ensures
            r@ == (SpecEnum {
                name: name@,
                kind: VariantKind::Unit,
                fields: Seq::empty(),
                elements: Seq::empty(),
            }),
            r.wf(),
    {
        EnumValue {
            name: name.to_owned(),
            kind: VariantKind::Unit,
            fields: Vec::new(),
            elements: Vec::new(),
        }
    }

    /// A tuple variant called `name`, with no elements yet.
    pub fn new_tuple_variant(name: &str) -> (r: EnumValue)
        ensures
            r@ == (SpecEnum {
                name: name@,
                kind: VariantKind::Tuple,
                fields: Seq::empty(),
                elements: Seq::empty(),
            }),
            r.wf(),
    {
        EnumValue {
            name: name.to_owned(),
            kind: VariantKind::Tuple,
            fields: Vec::new(),
            elements: Vec::new(),
        }
    }

    /// A struct variant called `name`, with no fields yet.
    pub fn new_struct_variant(name: &str) -> (r: EnumValue)
        ensures
            r@ == (SpecEnum {
                name: name@,
                kind: VariantKind::Struct,
                fields: Seq::empty(),
                elements: Seq::empty(),
            }),
            r.wf(),
    {
        EnumValue {
            name: name.to_owned(),
            kind: VariantKind::Struct,
            fields: Vec::new(),
            elements: Vec::new(),
        }
    }

    /// The active variant's name; a pure function of the current state.
    pub fn variant_name(&self) -> (r: &str)
        ensures
            r@ == self@.name,
    {
        self.name.as_str()
    }

    /// The active variant's kind.
    pub fn variant_kind(&self) -> (r: VariantKind)
        ensures
            r == self@.kind,
    {
        self.kind
    }

    /// The named fields of the active variant, in order; empty unless the
    /// variant is struct-kinded.
    pub fn fields(&self) -> (r: &Vec<(String, Value)>)
        ensures
            fields_model(r@) == self@.fields,
    {
        &self.fields
    }

    /// The elements of the active variant, in order; empty unless the
    /// variant is tuple-kinded.
    pub fn elements(&self) -> (r: &Vec<Value>)
        ensures
            values_model(r@) == self@.elements,
    {
        &self.elements
    }

    /// The active variant's field called `name`; nothing when the variant
    /// has no such field (in particular, for any non-struct variant).
    pub fn field(&self, name: &str) -> (r: Option<&Value>)
        ensures
            match r {
                Some(v) => spec_lookup(self@.fields, name@) == Some(v@),
                None => spec_lookup(self@.fields, name@) is None,
            },
    {
        proof {
            broadcast use group_value_model_facts;

        }
        let key: String = name.to_owned();
        let n = self.fields.len();
        let mut i: usize = 0;
        while i < n
            invariant
                n == self.fields@.len(),
                key@ == name@,
                0 <= i <= n,
                forall|j: int| 0 <= j < i ==> self@.fields[j].0 != name@,
            decreases n - i,
        {
            proof {
                broadcast use group_value_model_facts;

            }
            if self.fields[i].0 == key {
                proof {
                    lemma_lookup_first_match(self@.fields, name@, i as int);
                }
                return Some(&self.fields[i].1);
            }
            i += 1;
        }
        proof {
            lemma_lookup_none(self@.fields, name@);
        }
        None
    }

    /// The active variant's element at `index`; nothing when the index is out
    /// of range (in particular, for any non-tuple variant).
    pub fn element(&self, index: usize) -> (r: Option<&Value>)
        ensures
            match r {
                Some(v) => index < self@.elements.len() && v@ == self@.elements[index as int],
                None => index >= self@.elements.len(),
            },
    {
        proof {
            broadcast use group_value_model_facts;

        }
        if index < self.elements.len() {
            Some(&self.elements[index])
        } else {
            None
        }
    }

    /// A mutable view of the active variant's field called `name`; nothing
    /// when the variant has no such field.
    pub fn field_mut(&mut self, name: &str) -> (r: Option<&mut Value>)
        ensures
            match r {
                Some(v) => spec_lookup(old(self)@.fields, name@) == Some((*v)@) && final(self)@
                    == (SpecEnum {
                    fields: old(self)@.fields.update(
                        spec_first_index(old(self)@.fields, name@),
                        (name@, (*final(v))@),
                    ),
                    ..old(self)@
                }),
                None => spec_lookup(old(self)@.fields, name@) is None && final(self)@ == old(
                    self,
                )@,
            },
    {
        proof {
            broadcast use group_value_model_facts;

        }
        let key: String = name.to_owned();
        let n = self.fields.len();
        let mut i: usize = 0;
        while i < n
            invariant
                n == self.fields@.len(),
                self.fields@ == old(self).fields@,
                self.name@ == old(self).name@,
                self.kind == old(self).kind,
                self.elements@ == old(self).elements@,
                key@ == name@,
                0 <= i <= n,
                forall|j: int| 0 <= j < i ==> self@.fields[j].0 != name@,
            decreases n - i,
        {
            proof {
                broadcast use group_value_model_facts;

            }
            if self.fields[i].0 == key {
                proof {
                    lemma_lookup_first_match(self@.fields, name@, i as int);
                }
                let ghost pre = self.fields@;
                let slot = &mut self.fields[i];
                let r = &mut slot.1;
                proof {
                    broadcast use group_value_model_facts;

                    assert(fields_model(pre.update(i as int, (pre[i as int].0, *final(r))))
                        =~= fields_model(pre).update(i as int, (name@, (*final(r))@)));
                }
                return Some(r);
            }
            i += 1;
        }
        proof {
            lemma_lookup_none(self@.fields, name@);
        }
        None
    }

    /// A mutable view of the active variant's element at `index`; nothing
    /// when the index is out of range.
    pub fn element_mut(&mut self, index: usize) -> (r: Option<&mut Value>)
        ensures
            match r {
                Some(v) => index < old(self)@.elements.len() && (*v)@ == old(
                    self,
                )@.elements[index as int] && final(self)@ == (SpecEnum {
                    elements: old(self)@.elements.update(index as int, (*final(v))@),
                    ..old(self)@
                }),
                None => index >= old(self)@.elements.len() && final(self)@ == old(self)@,
            },
    {
        proof {
            broadcast use group_value_model_facts;

        }
        if index < self.elements.len() {
            let ghost pre = self.elements@;
            let r = &mut self.elements[index];
            proof {
                broadcast use group_value_model_facts;

                assert(values_model(pre.update(index as int, *final(r))) =~= values_model(
                    pre,
                ).update(index as int, (*final(r))@));
            }
            Some(r)
        } else {
            None
        }
    }

    /// Sets the named field of a struct variant: replaces the first field of
    /// that name, or appends a new one.
    pub fn set_field(&mut self, name: &str, value: Value)
        requires
            old(self)@.kind == VariantKind::Struct,
        ensures
            final(self)@.name == old(self)@.name,
            final(self)@.kind == old(self)@.kind,
            final(self)@.elements == old(self)@.elements,
            spec_lookup(old(self)@.fields, name@) is Some ==> final(self)@.fields == old(
                self,
            )@.fields.update(spec_first_index(old(self)@.fields, name@), (name@, value@)),
            spec_lookup(old(self)@.fields, name@) is None ==> final(self)@.fields == old(
                self,
            )@.fields.push((name@, value@)),
            old(self).wf() ==> final(self).wf(),
    {
        proof {
            broadcast use group_value_model_facts;

        }
        let key: String = name.to_owned();
        let n = self.fields.len();
        let mut i: usize = 0;
        while i < n
            invariant
                n == self.fields@.len(),
                self.fields@ == old(self).fields@,
                self.name@ == old(self).name@,
                self.kind == old(self).kind,
                self.elements@ == old(self).elements@,
                key@ == name@,
                0 <= i <= n,
                forall|j: int| 0 <= j < i ==> self@.fields[j].0 != name@,
            decreases n - i,
        {
            proof {
                broadcast use group_value_model_facts;

            }
            if self.fields[i].0 == key {
                proof {
                    lemma_lookup_first_match(self@.fields, name@, i as int);
                }
                let slot = &mut self.fields[i];
                *slot = (key, value);
                proof {
                    broadcast use group_value_model_facts;

                    assert(self@.fields =~= old(self)@.fields.update(i as int, (name@, value@)));
                }
                return ;
            }
            i += 1;
        }
        proof {
            lemma_lookup_none(self@.fields, name@);
        }
        self.fields.push((key, value));
        proof {
            broadcast use group_value_model_facts;

            assert(self@.fields =~= old(self)@.fields.push((name@, value@)));
        }
    }

    /// `set_field`, in builder style.
    pub fn with_field<T: Reflect>(self, name: &str, value: T) -> (r: EnumValue)
        requires
            self@.kind == VariantKind::Struct,
        ensures
            r@.name == self@.name,
            r@.kind == self@.kind,
            r@.elements == self@.elements,
            spec_lookup(self@.fields, name@) is Some ==> r@.fields == self@.fields.update(
                spec_first_index(self@.fields, name@),
                (name@, value.model()),
            ),
            spec_lookup(self@.fields, name@) is None ==> r@.fields == self@.fields.push(
                (name@, value.model()),
            ),
            self.wf() ==> r.wf(),
    {
        let mut this = self;
        let v = value.to_value();
        this.set_field(name, v);
        this
    }

    /// Appends an element to a tuple variant.
    pub fn push_element(&mut self, value: Value)
        requires
            old(self)@.kind == VariantKind::Tuple,
        ensures
            final(self)@.name == old(self)@.name,
            final(self)@.kind == old(self)@.kind,
            final(self)@.fields == old(self)@.fields,
            final(self)@.elements == old(self)@.elements.push(value@),
            old(self).wf() ==> final(self).wf(),
    {
        proof {
            broadcast use group_value_model_facts;

        }
        self.elements.push(value);
        proof {
            assert(self@.elements =~= old(self)@.elements.push(value@));
        }
    }

    /// `push_element`, in builder style.
    pub fn with_element<T: Reflect>(self, value: T) -> (r: EnumValue)
        requires
            self@.kind == VariantKind::Tuple,
        ensures
            r@.name == self@.name,
            r@.kind == self@.kind,
            r@.fields == self@.fields,
            r@.elements == self@.elements.push(value.model()),
            self.wf() ==> r.wf(),
    {
        let mut this = self;
        let v = value.to_value();
        this.push_element(v);
        this
    }
}

impl Reflect for EnumValue {
    open spec fn model(&self) -> SpecValue {
        SpecValue::Enum(self@)
    }

    /// An enum-shaped source always reconstructs as a loose enum value, so a
    /// patch from one replaces this value wholesale; any other source is
    /// skipped.
    open spec fn patched(&self, source: SpecValue) -> SpecValue {
        match source {
            SpecValue::Enum(e) => SpecValue::Enum(e),
            _ => self.model(),
        }
    }

    fn to_value(&self) -> (v: Value) {
        Value::Enum(self.clone_reflect())
    }

    fn clone_reflect(&self) -> (r: EnumValue) {
        EnumValue {
            name: self.name.clone(),
            kind: self.kind,
            fields: clone_fields(&self.fields),
            elements: clone_values(&self.elements),
        }
    }

    fn patch(&mut self, source: &Value) {
        if let Some(src) = source.as_enum() {
            *self = src.clone_reflect();
        }
    }
}

impl FromReflect for EnumValue {
    /// Reconstruction asks only that the source be enum-shaped.
    open spec fn can_reconstruct(source: SpecValue) -> bool {
        source is Enum
    }

    open spec fn reconstructed(source: SpecValue) -> SpecValue {
        source
    }

    fn from_reflect(source: &Value) -> (r: Option<EnumValue>) {
        match source.as_enum() {
            Some(e) => Some(e.clone_reflect()),
            None => None,
        }
    }

    proof fn lemma_round_trip(v: EnumValue) {
    }
}

} // verus!
