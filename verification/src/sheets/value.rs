//! The value of a spreadsheet cell, as the Sheets API hands it over in JSON.
use vstd::prelude::*;

verus! {

/// A JSON number as the Sheets API's JSON holds it.
#[derive(Debug, PartialEq, Eq, Structural)]
pub enum JsonNumber {
    /// A number from zero up.
    PosInt(u64),
    /// A number below zero.
    NegInt(i64),
    /// A number with a fraction or exponent, by the bits of its IEEE-754 double.
    Float(u64),
}

/// A JSON value: what a spreadsheet cell holds. A cell holds a scalar; an array
/// or an object is kept as its JSON text.
#[derive(Debug, PartialEq, Eq)]
pub enum Value {
    Null,
    Bool(bool),
    Number(JsonNumber),
    String(String),
    Array(String),
    Object(String),
}

impl JsonNumber {
    /// `serde_json::Number::as_u64`: the number, where it is an integer from zero up.
    pub open spec fn as_u64_spec(self) -> Option<u64> {
        match self {
            JsonNumber::PosInt(n) => Some(n),
            _ => None,
        }
    }

    /// `serde_json::Number::as_u64`.
    pub fn as_u64(&self) -> (r: Option<u64>)
        ensures
            r == self.as_u64_spec(),
    {
        match self {
            JsonNumber::PosInt(n) => Some(*n),
            _ => None,
        }
    }

    /// A copy of the number.
    pub fn copy(&self) -> (r: JsonNumber)
        ensures
            r == *self,
    {
        match self {
            JsonNumber::PosInt(n) => JsonNumber::PosInt(*n),
            JsonNumber::NegInt(n) => JsonNumber::NegInt(*n),
            JsonNumber::Float(b) => JsonNumber::Float(*b),
        }
    }
}

impl Value {
    /// A copy of the value, equal to it.
    pub fn deep_clone(&self) -> (r: Value)
        ensures
            r == *self,
    {
        match self {
            Value::Null => Value::Null,
            Value::Bool(b) => Value::Bool(*b),
            Value::Number(n) => Value::Number(n.copy()),
            Value::String(s) => Value::String(s.clone()),
            Value::Array(text) => Value::Array(text.clone()),
            Value::Object(text) => Value::Object(text.clone()),
        }
    }
}

/// A copy of a row of values, equal to it.
pub fn clone_row(row: &Vec<Value>) -> (r: Vec<Value>)
    ensures
        r@ == row@,
{
    let mut out: Vec<Value> = Vec::new();
    let mut i: usize = 0;
    while i < row.len()
        invariant
            i <= row@.len(),
            out@ == row@.subrange(0, i as int),
        decreases row@.len() - i,
    {
        out.push(row[i].deep_clone());
        assert(row@.subrange(0, i + 1) =~= row@.subrange(0, i as int).push(row@[i as int]));
        i = i + 1;
    }
    assert(row@.subrange(0, row@.len() as int) =~= row@);
    out
}

} // verus!
