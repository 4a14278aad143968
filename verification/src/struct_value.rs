//! Named-field introspection for struct-shaped values.

use crate::reflect::{
    lemma_lookup_first_match,
    lemma_lookup_none,
    spec_first_index,
    spec_lookup,
    spec_struct_patch,
    FromReflect,
    Reflect,
};
use crate::value::{
    clone_fields,
    fields_model,
    group_value_model_facts,
    SpecValue,
    StructValue,
    Value,
};
use vstd::prelude::*;

verus! {

/// Whether a field-model sequence maps each name at most once.
pub open spec fn spec_fields_unique(fields: Seq<(Seq<char>, SpecValue)>) -> bool {
    forall|i: int, j: int| 0 <= i < j < fields.len() ==> fields[i].0 != fields[j].0
}

impl Default for StructValue {
    /// An empty struct value.
    fn default() -> (r: StructValue)
        ensures
            r@ == Seq::<(Seq<char>, SpecValue)>::empty(),
            r.wf(),
    {
        StructValue { fields: Vec::new() }
    }
}

impl StructValue {
    /// Whether this struct value is an ordered mapping: no field name occurs
    /// twice.
    pub open spec fn wf(&self) -> bool {
        spec_fields_unique(self@)
    }

    /// An empty struct value.
    pub fn new() -> (r: StructValue)
        ensures
            r@ == Seq::<(Seq<char>, SpecValue)>::empty(),
            r.wf(),
    {
        StructValue { fields: Vec::new() }
    }

    /// The names and values of the fields, in declaration order.
    pub fn fields(&self) -> (r: &Vec<(String, Value)>)
        ensures
            fields_model(r@) == self@,
    {
        &self.fields
    }

    /// The value of the field called `name`, or nothing when no field bears
    /// that name.
    pub fn field(&self, name: &str) -> (r: Option<&Value>)
        ensures
            match r {
                Some(v) => spec_lookup(self@, name@) == Some(v@),
                None => spec_lookup(self@, name@) is None,
            },
    {
        proof {
            broadcast use group_value_model_facts;

        }
        let key: String = name.to_owned();
        let n = self.fields.len();
        let mut i: usize = 0;
        while i < n
            invariant
                n == self.fields@.len(),
                key@ == name@,
                0 <= i <= n,
                forall|j: int| 0 <= j < i ==> self@[j].0 != name@,
            decreases n - i,
        {
            proof {
                broadcast use group_value_model_facts;

            }
            if self.fields[i].0 == key {
                proof {
                    lemma_lookup_first_match(self@, name@, i as int);
                }
                return Some(&self.fields[i].1);
            }
            i += 1;
        }
        proof {
            lemma_lookup_none(self@, name@);
        }
        None
    }

    /// A mutable view of the field called `name`, or nothing when no field
    /// bears that name; writing through the view updates the field in place.
    pub fn field_mut(&mut self, name: &str) -> (r: Option<&mut Value>)
        ensures
            match r {
                Some(v) => spec_lookup(old(self)@, name@) == Some((*v)@) && final(self)@ == old(
                    self,
                )@.update(spec_first_index(old(self)@, name@), (name@, (*final(v))@)),
                None => spec_lookup(old(self)@, name@) is None && final(self)@ == old(self)@,
            },
    {
        proof {
            broadcast use group_value_model_facts;

        }
        let key: String = name.to_owned();
        let n = self.fields.len();
        let mut i: usize = 0;
        while i < n
            invariant
                n == self.fields@.len(),
                self.fields@ == old(self).fields@,
                key@ == name@,
                0 <= i <= n,
                forall|j: int| 0 <= j < i ==> self@[j].0 != name@,
            decreases n - i,
        {
            proof {
                broadcast use group_value_model_facts;

            }
            if self.fields[i].0 == key {
                proof {
                    lemma_lookup_first_match(self@, name@, i as int);
                }
                let ghost pre = self.fields@;
                let slot = &mut self.fields[i];
                let r = &mut slot.1;
                proof {
                    broadcast use group_value_model_facts;

                    assert(fields_model(pre.update(i as int, (pre[i as int].0, *final(r))))
                        =~= fields_model(pre).update(i as int, (name@, (*final(r))@)));
                }
                return Some(r);
            }
            i += 1;
        }
        proof {
            lemma_lookup_none(self@, name@);
        }
        None
    }

    /// Sets the field called `name` to `value`: replaces the first field of
    /// that name in place, or appends a new field when none exists. Keeps
    /// the ordered-mapping shape.
    pub fn set_field(&mut self, name: &str, value: Value)
        ensures
            spec_lookup(old(self)@, name@) is Some ==> final(self)@ == old(self)@.update(
                spec_first_index(old(self)@, name@),
                (name@, value@),
            ),
            spec_lookup(old(self)@, name@) is None ==> final(self)@ == old(self)@.push(
                (name@, value@),
            ),
            old(self).wf() ==> final(self).wf(),
    {
        proof {
            broadcast use group_value_model_facts;

        }
        let key: String = name.to_owned();
        let n = self.fields.len();
        let mut i: usize = 0;
        while i < n
            invariant
                n == self.fields@.len(),
                self.fields@ == old(self).fields@,
                key@ == name@,
                0 <= i <= n,
                forall|j: int| 0 <= j < i ==> self@[j].0 != name@,
            decreases n - i,
        {
            proof {
                broadcast use group_value_model_facts;

            }
            if self.fields[i].0 == key {
                proof {
                    lemma_lookup_first_match(self@, name@, i as int);
                }
                let slot = &mut self.fields[i];
                *slot = (key, value);
                proof {
                    broadcast use group_value_model_facts;

                    assert(self@ =~= old(self)@.update(i as int, (name@, value@)));
                    assert forall|p: int, q: int|
                        0 <= p < q < self@.len() && old(self).wf() implies self@[p].0
                        != self@[q].0 by {
                        assert(self@[p].0 == old(self)@[p].0);
                        assert(self@[q].0 == old(self)@[q].0);
                    }
                }
                return ;
            }
            i += 1;
        }
        proof {
            lemma_lookup_none(self@, name@);
        }
        self.fields.push((key, value));
        proof {
            broadcast use group_value_model_facts;

            assert(self@ =~= old(self)@.push((name@, value@)));
            assert forall|p: int, q: int|
                0 <= p < q < self@.len() && old(self).wf() implies self@[p].0 != self@[q].0 by {
                assert(self@[p].0 == old(self)@[p].0);
                if q < self@.len() - 1 {
                    assert(self@[q].0 == old(self)@[q].0);
                }
            }
        }
    }

    /// `set_field`, in builder style.
    pub fn with_field<T: Reflect>(self, name: &str, value: T) -> (r: StructValue)
        ensures
            spec_lookup(self@, name@) is Some ==> r@ == self@.update(
                spec_first_index(self@, name@),
                (name@, value.model()),
            ),
            spec_lookup(self@, name@) is None ==> r@ == self@.push((name@, value.model())),
            self.wf() ==> r.wf(),
    {
        let mut this = self;
        let v = value.to_value();
        this.set_field(name, v);
        this
    }
}

impl Reflect for StructValue {
    open spec fn model(&self) -> SpecValue {
        SpecValue::Struct(self@)
    }

    /// A struct-shaped source patches field by field; any other source is
    /// skipped.
    open spec fn patched(&self, source: SpecValue) -> SpecValue {
        match source {
            SpecValue::Struct(s) => SpecValue::Struct(spec_struct_patch(self@, s)),
            _ => self.model(),
        }
    }

    fn to_value(&self) -> (v: Value) {
        Value::Struct(StructValue { fields: clone_fields(&self.fields) })
    }

    fn clone_reflect(&self) -> (r: StructValue) {
        StructValue { fields: clone_fields(&self.fields) }
    }

    fn patch(&mut self, source: &Value) {
        if let Some(src) = source.as_struct() {
            let ghost s: Seq<(Seq<char>, SpecValue)> = src@;
            let ghost m_old: Seq<(Seq<char>, SpecValue)> = fields_model(old(self).fields@);
            let n = self.fields.len();
            let mut i: usize = 0;
            while i < n
                invariant
                    n == self.fields@.len(),
                    n == old(self).fields@.len(),
                    source@ == SpecValue::Struct(s),
                    fields_model(src.fields@) == s,
                    m_old == fields_model(old(self).fields@),
                    0 <= i <= n,
                    forall|j: int| i <= j < n ==> self.fields@[j] == old(self).fields@[j],
                    forall|j: int|
                        0 <= j < i ==> #[trigger] fields_model(self.fields@)[j]
                            == spec_struct_patch(m_old, s)[j],
                decreases n - i,
            {
                proof {
                    broadcast use group_value_model_facts;

                    assert(self.fields@[i as int] == old(self).fields@[i as int]);
                }
                let ghost pre = self.fields@;
                let found = src.field(self.fields[i].0.as_str());
                match found {
                    Some(v) => {
                        let nv = v.clone_value();
                        let name_keep = self.fields[i].0.clone();
                        let slot = &mut self.fields[i];
                        *slot = (name_keep, nv);
                        proof {
                            broadcast use group_value_model_facts;

                            assert(self.fields@ == pre.update(i as int, self.fields@[i as int]));
                            assert(spec_lookup(s, m_old[i as int].0) == Some(v@));
                            assert(fields_model(self.fields@)[i as int] == (
                                m_old[i as int].0,
                                v@,
                            ));
                        }
                    },
                    None => {
                        proof {
                            broadcast use group_value_model_facts;

                            assert(spec_lookup(s, m_old[i as int].0) is None);
                        }
                    },
                }
                proof {
                    broadcast use group_value_model_facts;

                    assert(fields_model(self.fields@).len() == n);
                    assert forall|j: int| 0 <= j < i + 1 implies #[trigger] fields_model(
                        self.fields@,
                    )[j] == spec_struct_patch(m_old, s)[j] by {
                        if j < i {
                            assert(self.fields@[j] == pre[j]);
                            assert(fields_model(self.fields@)[j] == fields_model(pre)[j]);
                        }
                    }
                }
                i += 1;
            }
            proof {
                broadcast use group_value_model_facts;

                assert(self@ =~= spec_struct_patch(old(self)@, s));
            }
        }
    }
}

impl FromReflect for StructValue {
    /// Reconstruction asks only that the source be struct-shaped.
    open spec fn can_reconstruct(source: SpecValue) -> bool {
        source is Struct
    }

    open spec fn reconstructed(source: SpecValue) -> SpecValue {
        source
    }

    fn from_reflect(source: &Value) -> (r: Option<StructValue>) {
        match source.as_struct() {
            Some(s) => Some(s.clone_reflect()),
            None => None,
        }
    }

    proof fn lemma_round_trip(v: StructValue) {
    }
}

} // verus!
