//! Values of a configuration file, before they are given a meaning.

use vstd::prelude::*;

verus! {

/// A value of a configuration file.
#[derive(Debug)]
pub enum Value {
    Signed(i64),
    Unsigned(u64),
    Text(String),
    List(Vec<Value>),
    /// Values with their names, in their order.
    Table(Vec<(String, Value)>),
    /// A value of any other type.
    Other,
}

/// The signed integer that a value denotes, if it fits.
pub open spec fn signed_value(value: Value) -> Option<i64> {
    match value {
        Value::Signed(n) => Some(n),
        Value::Unsigned(n) => if n <= i64::MAX {
            Some(n as i64)
        } else {
            None
        },
        _ => None,
    }
}

/// The natural number that a value denotes.
pub open spec fn natural_value(value: Value) -> Option<u64> {
    match value {
        Value::Signed(n) => if n >= 0 {
            Some(n as u64)
        } else {
            None
        },
        Value::Unsigned(n) => Some(n),
        _ => None,
    }
}

impl Value {
    /// Returns the signed integer that the value denotes, if it fits.
    pub fn as_i64(&self) -> (r: Option<i64>)
        ensures
            r == signed_value(*self),
    {
        match self {
            Value::Signed(n) => Some(*n),
            Value::Unsigned(n) => if *n <= i64::MAX as u64 {
                Some(*n as i64)
            } else {
                None
            },
            _ => None,
        }
    }

    /// Returns the natural number that the value denotes.
    pub fn as_u64(&self) -> (r: Option<u64>)
        ensures
            r == natural_value(*self),
    {
        match self {
            Value::Signed(n) => if *n >= 0 {
                Some(*n as u64)
            } else {
                None
            },
            Value::Unsigned(n) => Some(*n),
            _ => None,
        }
    }
}

/// A number is read as it stands, whichever way it is held, if it fits; nothing else is a number.
pub proof fn numbers_are_read_as_they_stand(
    n: i64,
    m: u64,
    text: String,
    list: Vec<Value>,
    table: Vec<(String, Value)>,
)
    ensures
        signed_value(Value::Signed(n)) == Some(n),
        m <= i64::MAX ==> signed_value(Value::Unsigned(m)) == Some(m as i64),
        m > i64::MAX ==> signed_value(Value::Unsigned(m)) is None,
        natural_value(Value::Unsigned(m)) == Some(m),
        n >= 0 ==> natural_value(Value::Signed(n)) == Some(n as u64),
        n < 0 ==> natural_value(Value::Signed(n)) is None,
        signed_value(Value::Text(text)) is None && natural_value(Value::Text(text)) is None,
        signed_value(Value::List(list)) is None && natural_value(Value::List(list)) is None,
        signed_value(Value::Table(table)) is None && natural_value(Value::Table(table)) is None,
        signed_value(Value::Other) is None && natural_value(Value::Other) is None,
{
}

} // verus!
