//! The dynamically-typed interchange value that crosses the host boundary.
//!
//! The host runtime only understands a JSON-like tree of values: numbers,
//! variable-length sequences, records of named fields, and text.  Fixed-length
//! binary data has no native representation there, so this crate models the
//! boundary with the tree below and builds its codec on top of it.

use vstd::prelude::*;

verus! {

/// A dynamically-typed tree value, as the host boundary carries it.
///
/// A record keeps its fields in order: the boundary protocol distinguishes
/// field order, so the model does too.
pub enum Value {
    /// A non-negative integer scalar.
    Number(u64),
    /// A variable-length sequence of values, in index order.
    Sequence(Vec<Value>),
    /// Named fields, in the order they were written.
    Record(Vec<(String, Value)>),
    /// A text scalar.
    Text(String),
}

/// The mathematical shape of an interchange value: the same tree with every
/// container abstracted to a sequence and every text to its characters.
///
/// Two values with equal models are indistinguishable at the boundary, so the
/// model is what "bit-identical output" means in this crate's contracts.
pub enum ValueModel {
    Number(u64),
    Sequence(Seq<ValueModel>),
    Record(Seq<(Seq<char>, ValueModel)>),
    Text(Seq<char>),
}

/// The model of an interchange value.
pub open spec fn value_model(v: Value) -> ValueModel
    decreases v,
{
    match v {
        Value::Number(x) => ValueModel::Number(x),
        Value::Sequence(es) => ValueModel::Sequence(elems_model(es@)),
        Value::Record(fs) => ValueModel::Record(fields_model(fs@)),
        Value::Text(t) => ValueModel::Text(t@),
    }
}

/// The models of a sequence's elements, in order.
pub open spec fn elems_model(s: Seq<Value>) -> Seq<ValueModel>
    decreases s,
{
    if s.len() == 0 {
        Seq::empty()
    } else {
        seq![value_model(s[0])] + elems_model(s.drop_first())
    }
}

/// The models of a record's fields, in order: each field name's characters
/// beside its value's model.
pub open spec fn fields_model(s: Seq<(String, Value)>) -> Seq<(Seq<char>, ValueModel)>
    decreases s,
{
    if s.len() == 0 {
        Seq::empty()
    } else {
        seq![(s[0].0@, value_model(s[0].1))] + fields_model(s.drop_first())
    }
}

} // verus!
