//! The values that elements hold: a tagged variant, so that one store holds
//! values of several types while every access stays checked against the type
//! fixed at registration.
use vstd::prelude::*;

verus! {

/// The type of a stored value.
#[derive(Clone, Copy, Debug, PartialEq, Eq, Structural)]
pub enum ValueKind {
    Int,
    Bool,
    Text,
}

/// A stored value.
#[derive(Clone, Debug, PartialEq, Eq)]
pub enum Value {
    Int(i64),
    Bool(bool),
    Text(String),
}

impl Value {
    /// The type of `self`.
    pub open spec fn kind_spec(&self) -> ValueKind {
        match self {
            Value::Int(_) => ValueKind::Int,
            Value::Bool(_) => ValueKind::Bool,
            Value::Text(_) => ValueKind::Text,
        }
    }

    pub fn kind(&self) -> (r: ValueKind)
        ensures
            r == self.kind_spec(),
    {
        match self {
            Value::Int(_) => ValueKind::Int,
            Value::Bool(_) => ValueKind::Bool,
            Value::Text(_) => ValueKind::Text,
        }
    }

    /// An independent copy of `self`.
    pub fn duplicate(&self) -> (r: Value)
        ensures
            r == *self,
    {
        match self {
            Value::Int(n) => Value::Int(*n),
            Value::Bool(b) => Value::Bool(*b),
            Value::Text(s) => Value::Text(s.clone()),
        }
    }
}

} // verus!
