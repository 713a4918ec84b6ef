//! Decoded values: what the host sees of a response, holding no reference
//! into native memory.

use vstd::prelude::*;

verus! {

/// A decoded value.
#[derive(Debug, PartialEq, Eq)]
pub enum Value {
    /// No value.
    Absent,
    /// A signed 64-bit integer.
    Int(i64),
    /// A 64-bit floating-point number, as its IEEE-754 bits.
    Float(u64),
    /// A boolean.
    Bool(bool),
    /// A byte string of explicit length.
    Bytes(Vec<u8>),
    /// Values in arrival order.
    Sequence(Vec<Value>),
    /// Key and value pairs in arrival order; a key may occur more than once.
    Pairs(Vec<(Value, Value)>),
}

/// The mathematical content of a [`Value`].
pub enum ValueView {
    Absent,
    Int(i64),
    Float(u64),
    Bool(bool),
    Bytes(Seq<u8>),
    Sequence(Seq<ValueView>),
    Pairs(Seq<(ValueView, ValueView)>),
}

/// What a value holds, as mathematics.
pub open spec fn value_view(value: Value) -> ValueView
    decreases value,
{
    match value {
        Value::Absent => ValueView::Absent,
        Value::Int(v) => ValueView::Int(v),
        Value::Float(bits) => ValueView::Float(bits),
        Value::Bool(b) => ValueView::Bool(b),
        Value::Bytes(bytes) => ValueView::Bytes(bytes@),
        Value::Sequence(items) => ValueView::Sequence(
            Seq::new(
                items@.len(),
                |i: int|
                    if 0 <= i < items@.len() {
                        value_view(items@[i])
                    } else {
                        ValueView::Absent
                    },
            ),
        ),
        Value::Pairs(pairs) => ValueView::Pairs(
            Seq::new(
                pairs@.len(),
                |i: int|
                    if 0 <= i < pairs@.len() {
                        (value_view(pairs@[i].0), value_view(pairs@[i].1))
                    } else {
                        (ValueView::Absent, ValueView::Absent)
                    },
            ),
        ),
    }
}

impl View for Value {
    type V = ValueView;

    open spec fn view(&self) -> ValueView {
        value_view(*self)
    }
}

impl Value {
    /// Whether this is the absent value.
    pub fn is_absent(&self) -> (b: bool)
        ensures
            b == (self@ is Absent),
    {
        match self {
            Value::Absent => true,
            _ => false,
        }
    }

    /// The integer held, if this is an integer.
    pub fn as_int(&self) -> (r: Option<i64>)
        ensures
            r == (if self@ is Int { Some(self@->Int_0) } else { None::<i64> }),
    {
        match self {
            Value::Int(v) => Some(*v),
            _ => None,
        }
    }

    /// The IEEE-754 bits of the number held, if this is a floating-point
    /// number.
    pub fn as_float_bits(&self) -> (r: Option<u64>)
        ensures
            r == (if self@ is Float { Some(self@->Float_0) } else { None::<u64> }),
    {
        match self {
            Value::Float(bits) => Some(*bits),
            _ => None,
        }
    }

    /// The boolean held, if this is a boolean.
    pub fn as_bool(&self) -> (r: Option<bool>)
        ensures
            r == (if self@ is Bool { Some(self@->Bool_0) } else { None::<bool> }),
    {
        match self {
            Value::Bool(b) => Some(*b),
            _ => None,
        }
    }

    /// The bytes held, if this is a byte string.
    pub fn as_bytes(&self) -> (r: Option<&Vec<u8>>)
        ensures
            r is Some <==> self@ is Bytes,
            r is Some ==> r->0@ == self@->Bytes_0,
    {
        match self {
            Value::Bytes(bytes) => Some(bytes),
            _ => None,
        }
    }

    /// The elements held, if this is a sequence.
    pub fn as_sequence(&self) -> (r: Option<&Vec<Value>>)
        ensures
            r is Some <==> self@ is Sequence,
            r is Some ==> value_views(r->0@) == self@->Sequence_0,
    {
        match self {
            Value::Sequence(items) => {
                proof {
                    lemma_sequence_view(*items);
                }
                Some(items)
            },
            _ => None,
        }
    }

    /// The pairs held, if this is a list of pairs.
    pub fn as_pairs(&self) -> (r: Option<&Vec<(Value, Value)>>)
        ensures
            r is Some <==> self@ is Pairs,
            r is Some ==> pair_views(r->0@) == self@->Pairs_0,
    {
        match self {
            Value::Pairs(pairs) => {
                proof {
                    lemma_pairs_view(*pairs);
                }
                Some(pairs)
            },
            _ => None,
        }
    }
}

/// The views of a list of values, in order.
pub open spec fn value_views(items: Seq<Value>) -> Seq<ValueView> {
    Seq::new(items.len(), |i: int| items[i]@)
}

/// The views of a list of pairs, in order.
pub open spec fn pair_views(pairs: Seq<(Value, Value)>) -> Seq<(ValueView, ValueView)> {
    Seq::new(pairs.len(), |i: int| (pairs[i].0@, pairs[i].1@))
}

/// The view of a sequence is the sequence of its elements' views.
pub proof fn lemma_sequence_view(items: Vec<Value>)
    ensures
        Value::Sequence(items)@ == ValueView::Sequence(value_views(items@)),
{
    assert(Value::Sequence(items)@->Sequence_0 =~= value_views(items@));
}

/// The view of a list of pairs is the list of the pairs' views.
pub proof fn lemma_pairs_view(pairs: Vec<(Value, Value)>)
    ensures
        Value::Pairs(pairs)@ == ValueView::Pairs(pair_views(pairs@)),
{
    assert(Value::Pairs(pairs)@->Pairs_0 =~= pair_views(pairs@));
}

} // verus!
