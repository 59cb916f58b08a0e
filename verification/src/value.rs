//! Typed scalar values and their declared-type validation.
//!
//! A `Value` is one scalar cell of a row: a boolean, a 64-bit integer, a
//! 64-bit float (carried by its IEEE 754 bit pattern so that every operation
//! on it is exact integer logic), a text string, or the SQL null. Values are
//! immutable once constructed and cheaply cloned.

use vstd::prelude::*;

use crate::error::{Error, ValueError};

verus! {

/// One scalar value. `F64` holds the IEEE 754 binary64 bit pattern of the
/// float it stands for; callers that hold an `f64` convert with `to_bits`.
#[derive(Debug)]
pub enum Value {
    Null,
    Bool(bool),
    I64(i64),
    F64(u64),
    Str(String),
}

/// The mathematical image of a `Value`: the same tags with text abstracted
/// to its character sequence. Contracts speak of this type.
pub enum ValueV {
    Null,
    Bool(bool),
    I64(i64),
    F64(u64),
    Str(Seq<char>),
}

impl View for Value {
    type V = ValueV;

    open spec fn view(&self) -> ValueV {
        match self {
            Value::Null => ValueV::Null,
            Value::Bool(b) => ValueV::Bool(*b),
            Value::I64(i) => ValueV::I64(*i),
            Value::F64(bits) => ValueV::F64(*bits),
            Value::Str(s) => ValueV::Str(s@),
        }
    }
}

impl Clone for Value {
    fn clone(&self) -> (r: Self)
        ensures
            r@ == self@,
    {
        match self {
            Value::Null => Value::Null,
            Value::Bool(b) => Value::Bool(*b),
            Value::I64(i) => Value::I64(*i),
            Value::F64(bits) => Value::F64(*bits),
            Value::Str(s) => Value::Str(s.clone()),
        }
    }
}

impl PartialEq for Value {
    fn eq(&self, other: &Self) -> bool {
        match (self, other) {
            (Value::Null, Value::Null) => true,
            (Value::Bool(a), Value::Bool(b)) => *a == *b,
            (Value::I64(a), Value::I64(b)) => *a == *b,
            (Value::F64(a), Value::F64(b)) => *a == *b,
            (Value::Str(a), Value::Str(b)) => *a == *b,
            _ => false,
        }
    }
}

impl Eq for Value {}

impl vstd::std_specs::cmp::PartialEqSpecImpl for Value {
    open spec fn obeys_eq_spec() -> bool {
        true
    }

    open spec fn eq_spec(&self, other: &Self) -> bool {
        self@ == other@
    }
}

/// A column's declared type.
#[derive(PartialEq, Eq, Structural, Clone, Copy, Debug)]
pub enum DataType {
    Boolean,
    Int,
    Float,
    Text,
    Timestamp,
}

/// Whether a value may sit in a column of the given declared type.
/// Null passes every type check; nullability is checked separately.
pub open spec fn spec_type_ok(v: ValueV, data_type: DataType) -> bool {
    match v {
        ValueV::Null => true,
        ValueV::Bool(_) => data_type == DataType::Boolean,
        ValueV::I64(_) => data_type == DataType::Int || data_type == DataType::Timestamp,
        ValueV::F64(_) => data_type == DataType::Float,
        ValueV::Str(_) => data_type == DataType::Text,
    }
}

impl Value {
    /// Checks this value against a column's declared type.
    pub fn validate_type(&self, data_type: &DataType) -> (r: Result<(), Error>)
        ensures
            r is Ok <==> spec_type_ok(self@, *data_type),
            r is Err ==> r == Err::<(), Error>(Error::Value(ValueError::IncompatibleDataType)),
    {
        let ok = match self {
            Value::Null => true,
            Value::Bool(_) => matches!(data_type, DataType::Boolean),
            Value::I64(_) => matches!(data_type, DataType::Int | DataType::Timestamp),
            Value::F64(_) => matches!(data_type, DataType::Float),
            Value::Str(_) => matches!(data_type, DataType::Text),
        };
        if ok {
            Ok(())
        } else {
            Err(Error::Value(ValueError::IncompatibleDataType))
        }
    }

    /// Checks this value against a column's nullability.
    pub fn validate_null(&self, nullable: bool) -> (r: Result<(), Error>)
        ensures
            r is Ok <==> (nullable || !(self@ is Null)),
            r is Err ==> r == Err::<(), Error>(Error::Value(ValueError::NullValueOnNotNullField)),
    {
        if !nullable && matches!(self, Value::Null) {
            Err(Error::Value(ValueError::NullValueOnNotNullField))
        } else {
            Ok(())
        }
    }
}

} // verus!
