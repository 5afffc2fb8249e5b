use vstd::prelude::*;
use crate::text::{decimal, decimal_text};

verus! {

/// A runtime value of the machine.
///
/// `Float` and `Double` hold the IEEE-754 bit pattern of the number
/// (binary32 and binary64).
#[derive(Debug, PartialEq)]
pub enum Value {
    Int(i32),
    Long(i64),
    Float(u32),
    Double(u64),
    Reference(String),
    Array(Vec<Value>),
}

/// The mathematical model of a [`Value`]: strings are sequences of
/// characters and arrays are sequences of models.
pub enum ValueView {
    Int(i32),
    Long(i64),
    Float(u32),
    Double(u64),
    Reference(Seq<char>),
    Array(Seq<ValueView>),
}

impl ValueView {
    /// A `Long` or a `Double`: a value that takes two local-variable slots.
    pub open spec fn is_wide(self) -> bool {
        self is Long || self is Double
    }

    /// The number of local-variable slots the value takes.
    pub open spec fn width(self) -> int {
        if self.is_wide() {
            2
        } else {
            1
        }
    }
}

/// The model of a value, by recursion on its structure.
pub open spec fn value_model(value: Value) -> ValueView
    decreases value,
{
    match value {
        Value::Int(i) => ValueView::Int(i),
        Value::Long(l) => ValueView::Long(l),
        Value::Float(bits) => ValueView::Float(bits),
        Value::Double(bits) => ValueView::Double(bits),
        Value::Reference(name) => ValueView::Reference(name@),
        Value::Array(items) => ValueView::Array(
            Seq::new(
                items.len() as nat,
                |i: int|
                    if 0 <= i < items.len() {
                        value_model(items[i])
                    } else {
                        ValueView::Int(0)
                    },
            ),
        ),
    }
}

impl View for Value {
    type V = ValueView;

    open spec fn view(&self) -> ValueView {
        value_model(*self)
    }
}

/// The models of a sequence of values, item by item.
pub open spec fn values_view(items: Seq<Value>) -> Seq<ValueView> {
    Seq::new(items.len(), |i: int| items[i]@)
}

/// The models of a sequence of optional values, item by item.
pub open spec fn slots_view(slots: Seq<Option<Value>>) -> Seq<Option<ValueView>> {
    Seq::new(slots.len(), |i: int| option_view(slots[i]))
}

/// The model of an optional value.
pub open spec fn option_view(slot: Option<Value>) -> Option<ValueView> {
    match slot {
        Some(v) => Some(v@),
        None => None,
    }
}

/// The model of an array value is the sequence of its items' models.
pub proof fn lemma_array_view(items: Vec<Value>)
    ensures
        Value::Array(items)@ == ValueView::Array(values_view(items@)),
{
    let lhs = Value::Array(items)@->Array_0;
    assert(lhs.len() == items@.len());
    assert forall|i: int| 0 <= i < lhs.len() implies lhs[i] == values_view(items@)[i] by {
        assert(lhs[i] == items[i]@);
    }
    assert(lhs =~= values_view(items@));
}

/// Copies a vector of values item by item.
pub fn clone_values(items: &Vec<Value>) -> (out: Vec<Value>)
    ensures
        values_view(out@) == values_view(items@),
    decreases items,
{
    let mut out: Vec<Value> = Vec::new();
    let mut i: usize = 0;
    while i < items.len()
        invariant
            i <= items.len(),
            out.len() == i,
            forall|k: int| 0 <= k < i ==> out[k]@ == items[k]@,
        decreases items.len() - i,
    {
        proof {
            vstd::std_specs::vec::axiom_vec_index_decreases(*items, i as int);
        }
        let item = items[i].clone();
        out.push(item);
        i += 1;
    }
    assert(values_view(out@) =~= values_view(items@));
    out
}

impl Clone for Value {
    fn clone(&self) -> (r: Self)
        ensures
            r@ == self@,
        decreases self,
    {
        match self {
            Value::Int(i) => Value::Int(*i),
            Value::Long(l) => Value::Long(*l),
            Value::Float(bits) => Value::Float(*bits),
            Value::Double(bits) => Value::Double(*bits),
            Value::Reference(name) => Value::Reference(name.clone()),
            Value::Array(items) => {
                let out = clone_values(items);
                proof {
                    lemma_array_view(out);
                    lemma_array_view(*items);
                }
                Value::Array(out)
            },
        }
    }
}

/// The line that printing a value gives, for the kinds of value that the
/// machine can write out: a reference prints as its text, an int and a long
/// in decimal.
pub open spec fn printed(value: ValueView) -> Option<Seq<char>> {
    match value {
        ValueView::Reference(text) => Some(text),
        ValueView::Int(v) => Some(decimal(v as int)),
        ValueView::Long(v) => Some(decimal(v as int)),
        _ => None,
    }
}

impl Value {
    /// The line that printing the value gives. Nothing for a float, a
    /// double and an array: how these look is left to the embedding
    /// program.
    pub fn text(&self) -> (r: Option<String>)
        ensures
            match r {
                Some(line) => printed(self@) == Some(line@),
                None => printed(self@) is None,
            },
    {
        match self {
            Value::Reference(text) => Some(text.clone()),
            Value::Int(v) => Some(decimal_text(*v as i64)),
            Value::Long(v) => Some(decimal_text(*v)),
            _ => None,
        }
    }

    /// Whether the value takes two local-variable slots.
    pub fn is_wide(&self) -> (r: bool)
        ensures
            r == self@.is_wide(),
    {
        match self {
            Value::Long(_) => true,
            Value::Double(_) => true,
            _ => false,
        }
    }
}

} // verus!
