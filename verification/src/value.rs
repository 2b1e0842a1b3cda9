//! Dynamically typed values and their coercion to the typed columns.

use vstd::prelude::*;
use crate::double::{double_of_int, Double};

verus! {

/// One value of an input record, tagged with its dynamic type.
#[derive(Clone, Debug, PartialEq, Eq)]
pub enum Value {
    /// The explicit null value.
    Null,
    /// A boolean.
    Bool(bool),
    /// An integer.
    Int(i64),
    /// A double-precision number.
    Double(Double),
    /// A text.
    Text(String),
    /// A value of a type that no column accepts.
    Other,
}

/// The mathematical content of a [`Value`].
pub enum ValueModel {
    Null,
    Bool(bool),
    Int(i64),
    Double(u64),
    Text(Seq<char>),
    Other,
}

impl View for Value {
    type V = ValueModel;

    open spec fn view(&self) -> ValueModel {
        match self {
            Value::Null => ValueModel::Null,
            Value::Bool(b) => ValueModel::Bool(*b),
            Value::Int(n) => ValueModel::Int(*n),
            Value::Double(d) => ValueModel::Double(d.spec_bits()),
            Value::Text(s) => ValueModel::Text(s@),
            Value::Other => ValueModel::Other,
        }
    }
}

impl ValueModel {
    /// The value as an integer. A boolean counts as an integer, as it does
    /// in the dynamic languages that such records come from: false is 0
    /// and true is 1.
    pub open spec fn as_integer(self) -> Option<int> {
        match self {
            ValueModel::Int(n) => Some(n as int),
            ValueModel::Bool(b) => Some(
                if b {
                    1int
                } else {
                    0int
                },
            ),
            _ => None,
        }
    }

    /// The value as a 32-bit integer: an integer that fits, and nothing
    /// else.
    pub open spec fn as_i32(self) -> Option<i32> {
        match self.as_integer() {
            Some(n) if i32::MIN <= n <= i32::MAX => Some(n as i32),
            _ => None,
        }
    }

    /// The value as a 64-bit integer: any integer, and nothing else.
    pub open spec fn as_i64(self) -> Option<i64> {
        match self.as_integer() {
            Some(n) => Some(n as i64),
            None => None,
        }
    }

    /// The value as the bit pattern of a double: a double as it is, an
    /// integer as the double nearest to it, and nothing else.
    pub open spec fn as_double(self) -> Option<u64> {
        match self {
            ValueModel::Double(bits) => Some(bits),
            _ => match self.as_integer() {
                Some(n) => Some(double_of_int(n)),
                None => None,
            },
        }
    }

    /// The value as a text: a text, and nothing else.
    pub open spec fn as_text(self) -> Option<Seq<char>> {
        match self {
            ValueModel::Text(s) => Some(s),
            _ => None,
        }
    }

    /// The value as a boolean: a boolean, and nothing else. An integer is
    /// no boolean.
    pub open spec fn as_bool(self) -> Option<bool> {
        match self {
            ValueModel::Bool(b) => Some(b),
            _ => None,
        }
    }
}

impl Value {
    /// Coerces the value to a 64-bit integer column.
    pub fn to_i64(&self) -> (r: Option<i64>)
        ensures
            r == self@.as_i64(),
            r is Some <==> self@.as_integer() is Some,
            r matches Some(n) ==> self@.as_integer() == Some(n as int),
    {
        match self {
            Value::Int(n) => Some(*n),
            Value::Bool(b) => Some(
                if *b {
                    1
                } else {
                    0
                },
            ),
            _ => None,
        }
    }

    /// Coerces the value to a 32-bit integer column.
    pub fn to_i32(&self) -> (r: Option<i32>)
        ensures
            r == self@.as_i32(),
    {
        match self.to_i64() {
            Some(n) => {
                if -2147483648 <= n && n <= 2147483647 {
                    Some(n as i32)
                } else {
                    None
                }
            },
            None => None,
        }
    }

    /// Coerces the value to a double-precision column.
    pub fn to_double(&self) -> (r: Option<Double>)
        ensures
            match r {
                Some(d) => self@.as_double() == Some(d.spec_bits()),
                None => self@.as_double() is None,
            },
    {
        match self {
            Value::Double(d) => Some(*d),
            _ => match self.to_i64() {
                Some(n) => Some(Double::from_i64(n)),
                None => None,
            },
        }
    }

    /// Coerces the value to a text column.
    pub fn to_text(&self) -> (r: Option<String>)
        ensures
            match r {
                Some(s) => self@.as_text() == Some(s@),
                None => self@.as_text() is None,
            },
    {
        match self {
            Value::Text(s) => Some(s.clone()),
            _ => None,
        }
    }

    /// Coerces the value to a boolean column.
    pub fn to_bool(&self) -> (r: Option<bool>)
        ensures
            r == self@.as_bool(),
    {
        match self {
            Value::Bool(b) => Some(*b),
            _ => None,
        }
    }
}

} // verus!
