//! Positional introspection for tuple-shaped values.

use crate::reflect::{spec_tuple_patch, FromReflect, Reflect};
use crate::value::{
    clone_values,
    group_value_model_facts,
    values_model,
    SpecValue,
    TupleStructValue,
    Value,
};
use vstd::prelude::*;

verus! {

impl TupleStructValue {
    /// An empty tuple-struct value.
    pub fn new() -> (r: TupleStructValue)
        ensures
            r@ == Seq::<SpecValue>::empty(),
    {
        TupleStructValue { elements: Vec::new() }
    }

    /// The elements, in order.
    pub fn elements(&self) -> (r: &Vec<Value>)
        ensures
            values_model(r@) == self@,
    {
        &self.elements
    }

    /// The element at `index`, or nothing when the index is out of range.
    pub fn element(&self, index: usize) -> (r: Option<&Value>)
        ensures
            match r {
                Some(v) => index < self@.len() && v@ == self@[index as int],
                None => index >= self@.len(),
            },
    {
        proof {
            broadcast use group_value_model_facts;

        }
        if index < self.elements.len() {
            Some(&self.elements[index])
        } else {
            None
        }
    }

    /// A mutable view of the element at `index`, or nothing when the index
    /// is out of range; writing through the view updates the element in
    /// place.
    pub fn element_mut(&mut self, index: usize) -> (r: Option<&mut Value>)
        ensures
            match r {
                Some(v) => index < old(self)@.len() && (*v)@ == old(self)@[index as int] && final(self)@ == old(self)@.update(index as int, (*final(v))@),
                None => index >= old(self)@.len() && final(self)@ == old(self)@,
            },
    {
        proof {
            broadcast use group_value_model_facts;

        }
        if index < self.elements.len() {
            let ghost pre = self.elements@;
            let r = &mut self.elements[index];
            proof {
                broadcast use group_value_model_facts;

                assert(values_model(pre.update(index as int, *final(r))) =~= values_model(
                    pre,
                ).update(index as int, (*final(r))@));
            }
            Some(r)
        } else {
            None
        }
    }

    /// Appends an element.
    pub fn push_element(&mut self, value: Value)
        ensures
            final(self)@ == old(self)@.push(value@),
    {
        proof {
            broadcast use group_value_model_facts;

        }
        self.elements.push(value);
        proof {
            assert(self@ =~= old(self)@.push(value@));
        }
    }

    /// `push_element`, in builder style.
    pub fn with_element<T: Reflect>(self, value: T) -> (r: TupleStructValue)
        ensures
            r@ == self@.push(value.model()),
    {
        let mut this = self;
        let v = value.to_value();
        this.push_element(v);
        this
    }
}

impl Reflect for TupleStructValue {
    open spec fn model(&self) -> SpecValue {
        SpecValue::TupleStruct(self@)
    }

    /// A tuple-shaped source patches element by element; any other source is
    /// skipped.
    open spec fn patched(&self, source: SpecValue) -> SpecValue {
        match source {
            SpecValue::TupleStruct(s) => SpecValue::TupleStruct(spec_tuple_patch(self@, s)),
            _ => self.model(),
        }
    }

    fn to_value(&self) -> (v: Value) {
        Value::TupleStruct(TupleStructValue { elements: clone_values(&self.elements) })
    }

    fn clone_reflect(&self) -> (r: TupleStructValue) {
        TupleStructValue { elements: clone_values(&self.elements) }
    }

    fn patch(&mut self, source: &Value) {
        if let Some(src) = source.as_tuple_struct() {
            let ghost s: Seq<SpecValue> = src@;
            let ghost m_old: Seq<SpecValue> = values_model(old(self).elements@);
            let n = self.elements.len();
            let m = src.elements.len();
            let k = if m < n {
                m
            } else {
                n
            };
            proof {
                broadcast use group_value_model_facts;

            }
            let mut i: usize = 0;
            while i < k
                invariant
                    n == self.elements@.len(),
                    n == old(self).elements@.len(),
                    m == src.elements@.len(),
                    k == if m < n {
                        m as int
                    } else {
                        n as int
                    },
                    source@ == SpecValue::TupleStruct(s),
                    values_model(src.elements@) == s,
                    s.len() == m,
                    m_old == values_model(old(self).elements@),
                    0 <= i <= k,
                    forall|j: int| i <= j < n ==> self.elements@[j] == old(self).elements@[j],
                    forall|j: int|
                        0 <= j < i ==> #[trigger] values_model(self.elements@)[j]
                            == spec_tuple_patch(m_old, s)[j],
                decreases k - i,
            {
                let ghost pre = self.elements@;
                let nv = src.elements[i].clone_value();
                let slot = &mut self.elements[i];
                *slot = nv;
                proof {
                    broadcast use group_value_model_facts;

                    assert(self.elements@ == pre.update(i as int, self.elements@[i as int]));
                    assert(values_model(self.elements@)[i as int] == s[i as int]);
                    assert forall|j: int| 0 <= j < i + 1 implies #[trigger] values_model(
                        self.elements@,
                    )[j] == spec_tuple_patch(m_old, s)[j] by {
                        if j < i {
                            assert(self.elements@[j] == pre[j]);
                            assert(values_model(self.elements@)[j] == values_model(pre)[j]);
                        }
                    }
                }
                i += 1;
            }
            proof {
                broadcast use group_value_model_facts;

                assert(self@ =~= spec_tuple_patch(old(self)@, s));
            }
        }
    }
}

impl FromReflect for TupleStructValue {
    /// Reconstruction asks only that the source be tuple-shaped.
    open spec fn can_reconstruct(source: SpecValue) -> bool {
        source is TupleStruct
    }

    open spec fn reconstructed(source: SpecValue) -> SpecValue {
        source
    }

    fn from_reflect(source: &Value) -> (r: Option<TupleStructValue>) {
        match source.as_tuple_struct() {
            Some(t) => Some(t.clone_reflect()),
            None => None,
        }
    }

    proof fn lemma_round_trip(v: TupleStructValue) {
    }
}

} // verus!
