//! Operators over values: the binary and unary operators an expression tree
//! may apply, and the accumulators behind aggregate methods.
//!
//! Null propagates through every operator: any operand that is null makes
//! the result null. Operands of matching tags follow the tag's own rules;
//! operands of different tags are a type error.

use vstd::prelude::*;

use crate::error::{Error, ErrorV, ValueError};
use crate::fbits;
use crate::value::{Value, ValueV};

verus! {

/// A unary operator node.
#[derive(PartialEq, Eq, Structural, Clone, Copy, Debug)]
pub enum UnaryOperator {
    Plus,
    Minus,
    Not,
}

/// A binary operator node.
#[derive(PartialEq, Eq, Structural, Clone, Copy, Debug)]
pub enum BinaryOperator {
    And,
    Or,
    Eq,
    NotEq,
    Lt,
    LtEq,
    Gt,
    GtEq,
    Plus,
    Minus,
    Multiply,
    Divide,
    Modulo,
    StringConcat,
}

/// An aggregate accumulator.
#[derive(PartialEq, Eq, Structural, Clone, Copy, Debug)]
pub enum AggregateOperator {
    Count,
    Sum,
    Min,
    Max,
}

/// What a binary operator yields on two boolean operands.
pub open spec fn spec_binary_bool(op: BinaryOperator, a: bool, b: bool) -> Result<
    ValueV,
    ErrorV,
> {
    match op {
        BinaryOperator::And => Ok(ValueV::Bool(a && b)),
        BinaryOperator::Or => Ok(ValueV::Bool(a || b)),
        BinaryOperator::Eq => Ok(ValueV::Bool(a == b)),
        BinaryOperator::NotEq => Ok(ValueV::Bool(a != b)),
        _ => Err(ErrorV::Value(ValueError::IncompatibleDataType)),
    }
}

/// What a binary operator yields on two 64-bit integer operands. Arithmetic
/// that leaves the 64-bit range is an overflow error; division and remainder
/// by zero are their own error.
pub open spec fn spec_binary_i64(op: BinaryOperator, a: i64, b: i64) -> Result<ValueV, ErrorV> {
    match op {
        BinaryOperator::Eq => Ok(ValueV::Bool(a == b)),
        BinaryOperator::NotEq => Ok(ValueV::Bool(a != b)),
        BinaryOperator::Lt => Ok(ValueV::Bool(a < b)),
        BinaryOperator::LtEq => Ok(ValueV::Bool(a <= b)),
        BinaryOperator::Gt => Ok(ValueV::Bool(a > b)),
        BinaryOperator::GtEq => Ok(ValueV::Bool(a >= b)),
        BinaryOperator::Plus => match a.checked_add(b) {
            Some(v) => Ok(ValueV::I64(v)),
            None => Err(ErrorV::Value(ValueError::IntegerOverflow)),
        },
        BinaryOperator::Minus => match a.checked_sub(b) {
            Some(v) => Ok(ValueV::I64(v)),
            None => Err(ErrorV::Value(ValueError::IntegerOverflow)),
        },
        BinaryOperator::Multiply => match a.checked_mul(b) {
            Some(v) => Ok(ValueV::I64(v)),
            None => Err(ErrorV::Value(ValueError::IntegerOverflow)),
        },
        BinaryOperator::Divide => if b == 0 {
            Err(ErrorV::Value(ValueError::DivisionByZero))
        } else {
            match a.checked_div(b) {
                Some(v) => Ok(ValueV::I64(v)),
                None => Err(ErrorV::Value(ValueError::IntegerOverflow)),
            }
        },
        BinaryOperator::Modulo => if b == 0 {
            Err(ErrorV::Value(ValueError::DivisionByZero))
        } else {
            match a.checked_rem(b) {
                Some(v) => Ok(ValueV::I64(v)),
                None => Err(ErrorV::Value(ValueError::IntegerOverflow)),
            }
        },
        _ => Err(ErrorV::Value(ValueError::IncompatibleDataType)),
    }
}

/// What a binary operator yields on two float operands, by their bit
/// patterns. Only the IEEE comparisons are defined.
pub open spec fn spec_binary_f64(op: BinaryOperator, a: u64, b: u64) -> Result<ValueV, ErrorV> {
    match op {
        BinaryOperator::Eq => Ok(ValueV::Bool(fbits::spec_f64_eq(a, b))),
        BinaryOperator::NotEq => Ok(ValueV::Bool(!fbits::spec_f64_eq(a, b))),
        BinaryOperator::Lt => Ok(ValueV::Bool(fbits::spec_f64_lt(a, b))),
        BinaryOperator::LtEq => Ok(
            ValueV::Bool(fbits::spec_f64_lt(a, b) || fbits::spec_f64_eq(a, b)),
        ),
        BinaryOperator::Gt => Ok(ValueV::Bool(fbits::spec_f64_lt(b, a))),
        BinaryOperator::GtEq => Ok(
            ValueV::Bool(fbits::spec_f64_lt(b, a) || fbits::spec_f64_eq(a, b)),
        ),
        _ => Err(ErrorV::Value(ValueError::IncompatibleDataType)),
    }
}

/// What a binary operator yields on two text operands.
pub open spec fn spec_binary_str(op: BinaryOperator, a: Seq<char>, b: Seq<char>) -> Result<
    ValueV,
    ErrorV,
> {
    match op {
        BinaryOperator::Eq => Ok(ValueV::Bool(a == b)),
        BinaryOperator::NotEq => Ok(ValueV::Bool(a != b)),
        BinaryOperator::StringConcat => Ok(ValueV::Str(a + b)),
        _ => Err(ErrorV::Value(ValueError::IncompatibleDataType)),
    }
}

/// What a binary operator yields. Null on either side propagates; matching
/// tags follow the tag's rules; different tags are a type error.
pub open spec fn spec_binary(op: BinaryOperator, a: ValueV, b: ValueV) -> Result<ValueV, ErrorV> {
    if a is Null || b is Null {
        Ok(ValueV::Null)
    } else {
        match (a, b) {
            (ValueV::Bool(x), ValueV::Bool(y)) => spec_binary_bool(op, x, y),
            (ValueV::I64(x), ValueV::I64(y)) => spec_binary_i64(op, x, y),
            (ValueV::F64(x), ValueV::F64(y)) => spec_binary_f64(op, x, y),
            (ValueV::Str(x), ValueV::Str(y)) => spec_binary_str(op, x, y),
            _ => Err(ErrorV::Value(ValueError::IncompatibleDataType)),
        }
    }
}

/// What a unary operator yields. Null propagates.
pub open spec fn spec_unary(op: UnaryOperator, a: ValueV) -> Result<ValueV, ErrorV> {
    if a is Null {
        Ok(ValueV::Null)
    } else {
        match op {
            UnaryOperator::Not => match a {
                ValueV::Bool(x) => Ok(ValueV::Bool(!x)),
                _ => Err(ErrorV::Value(ValueError::IncompatibleDataType)),
            },
            UnaryOperator::Minus => match a {
                ValueV::I64(x) => if x == i64::MIN {
                    Err(ErrorV::Value(ValueError::IntegerOverflow))
                } else {
                    Ok(ValueV::I64((-x) as i64))
                },
                ValueV::F64(bits) => Ok(ValueV::F64(fbits::spec_f64_neg(bits))),
                _ => Err(ErrorV::Value(ValueError::IncompatibleDataType)),
            },
            UnaryOperator::Plus => match a {
                ValueV::I64(_) => Ok(a),
                ValueV::F64(_) => Ok(a),
                _ => Err(ErrorV::Value(ValueError::IncompatibleDataType)),
            },
        }
    }
}

/// Evaluates a binary operator on two values.
pub fn eval_binary(op: BinaryOperator, a: &Value, b: &Value) -> (r: Result<Value, Error>)
    ensures
        crate::error::res_view(r) == spec_binary(op, a@, b@),
{
    if matches!(a, Value::Null) || matches!(b, Value::Null) {
        return Ok(Value::Null);
    }
    match (a, b) {
        (Value::Bool(x), Value::Bool(y)) => match op {
            BinaryOperator::And => Ok(Value::Bool(*x && *y)),
            BinaryOperator::Or => Ok(Value::Bool(*x || *y)),
            BinaryOperator::Eq => Ok(Value::Bool(*x == *y)),
            BinaryOperator::NotEq => Ok(Value::Bool(*x != *y)),
            _ => Err(Error::Value(ValueError::IncompatibleDataType)),
        },
        (Value::I64(x), Value::I64(y)) => match op {
            BinaryOperator::Eq => Ok(Value::Bool(*x == *y)),
            BinaryOperator::NotEq => Ok(Value::Bool(*x != *y)),
            BinaryOperator::Lt => Ok(Value::Bool(*x < *y)),
            BinaryOperator::LtEq => Ok(Value::Bool(*x <= *y)),
            BinaryOperator::Gt => Ok(Value::Bool(*x > *y)),
            BinaryOperator::GtEq => Ok(Value::Bool(*x >= *y)),
            BinaryOperator::Plus => match x.checked_add(*y) {
                Some(v) => Ok(Value::I64(v)),
                None => Err(Error::Value(ValueError::IntegerOverflow)),
            },
            BinaryOperator::Minus => match x.checked_sub(*y) {
                Some(v) => Ok(Value::I64(v)),
                None => Err(Error::Value(ValueError::IntegerOverflow)),
            },
            BinaryOperator::Multiply => match x.checked_mul(*y) {
                Some(v) => Ok(Value::I64(v)),
                None => Err(Error::Value(ValueError::IntegerOverflow)),
            },
            BinaryOperator::Divide => if *y == 0 {
                Err(Error::Value(ValueError::DivisionByZero))
            } else {
                match x.checked_div(*y) {
                    Some(v) => Ok(Value::I64(v)),
                    None => Err(Error::Value(ValueError::IntegerOverflow)),
                }
            },
            BinaryOperator::Modulo => if *y == 0 {
                Err(Error::Value(ValueError::DivisionByZero))
            } else {
                match x.checked_rem(*y) {
                    Some(v) => Ok(Value::I64(v)),
                    None => Err(Error::Value(ValueError::IntegerOverflow)),
                }
            },
            _ => Err(Error::Value(ValueError::IncompatibleDataType)),
        },
        (Value::F64(x), Value::F64(y)) => match op {
            BinaryOperator::Eq => Ok(Value::Bool(fbits::f64_eq(*x, *y))),
            BinaryOperator::NotEq => Ok(Value::Bool(!fbits::f64_eq(*x, *y))),
            BinaryOperator::Lt => Ok(Value::Bool(fbits::f64_lt(*x, *y))),
            BinaryOperator::LtEq => Ok(
                Value::Bool(fbits::f64_lt(*x, *y) || fbits::f64_eq(*x, *y)),
            ),
            BinaryOperator::Gt => Ok(Value::Bool(fbits::f64_lt(*y, *x))),
            BinaryOperator::GtEq => Ok(
                Value::Bool(fbits::f64_lt(*y, *x) || fbits::f64_eq(*x, *y)),
            ),
            _ => Err(Error::Value(ValueError::IncompatibleDataType)),
        },
        (Value::Str(x), Value::Str(y)) => match op {
            BinaryOperator::Eq => Ok(Value::Bool(*x == *y)),
            BinaryOperator::NotEq => Ok(Value::Bool(!(*x == *y))),
            BinaryOperator::StringConcat => {
                let mut out = x.clone();
                out.append(y.as_str());
                Ok(Value::Str(out))
            },
            _ => Err(Error::Value(ValueError::IncompatibleDataType)),
        },
        _ => Err(Error::Value(ValueError::IncompatibleDataType)),
    }
}

/// Evaluates a unary operator on a value.
pub fn eval_unary(op: UnaryOperator, a: &Value) -> (r: Result<Value, Error>)
    ensures
        crate::error::res_view(r) == spec_unary(op, a@),
{
    match a {
        Value::Null => Ok(Value::Null),
        Value::Bool(x) => match op {
            UnaryOperator::Not => Ok(Value::Bool(!*x)),
            _ => Err(Error::Value(ValueError::IncompatibleDataType)),
        },
        Value::I64(x) => match op {
            UnaryOperator::Not => Err(Error::Value(ValueError::IncompatibleDataType)),
            UnaryOperator::Minus => if *x == i64::MIN {
                Err(Error::Value(ValueError::IntegerOverflow))
            } else {
                Ok(Value::I64(-*x))
            },
            UnaryOperator::Plus => Ok(Value::I64(*x)),
        },
        Value::F64(bits) => match op {
            UnaryOperator::Not => Err(Error::Value(ValueError::IncompatibleDataType)),
            UnaryOperator::Minus => Ok(Value::F64(fbits::f64_neg(*bits))),
            UnaryOperator::Plus => Ok(Value::F64(*bits)),
        },
        Value::Str(_) => Err(Error::Value(ValueError::IncompatibleDataType)),
    }
}

/// Whether two values of matching tags hold the same content: the equality
/// NULLIF tests. Floats compare by the IEEE rule; values of different tags
/// are simply not equal.
pub open spec fn spec_same_value(a: ValueV, b: ValueV) -> bool {
    match (a, b) {
        (ValueV::Null, ValueV::Null) => true,
        (ValueV::Bool(x), ValueV::Bool(y)) => x == y,
        (ValueV::I64(x), ValueV::I64(y)) => x == y,
        (ValueV::F64(x), ValueV::F64(y)) => fbits::spec_f64_eq(x, y),
        (ValueV::Str(x), ValueV::Str(y)) => x == y,
        _ => false,
    }
}

/// Tests whether two values hold the same content, as NULLIF does.
pub fn same_value(a: &Value, b: &Value) -> (r: bool)
    ensures
        r == spec_same_value(a@, b@),
{
    match (a, b) {
        (Value::Null, Value::Null) => true,
        (Value::Bool(x), Value::Bool(y)) => *x == *y,
        (Value::I64(x), Value::I64(y)) => *x == *y,
        (Value::F64(x), Value::F64(y)) => fbits::f64_eq(*x, *y),
        (Value::Str(x), Value::Str(y)) => *x == *y,
        _ => false,
    }
}

/// What one accumulation step yields: `acc` is the accumulator so far (null
/// before the first step) and `new` the row's value. Null row values are
/// skipped; COUNT counts, SUM adds, MIN and MAX keep the smaller or larger
/// of two integers or two floats.
pub open spec fn spec_accumulate(op: AggregateOperator, new: ValueV, acc: ValueV) -> Result<
    ValueV,
    ErrorV,
> {
    match op {
        AggregateOperator::Count => {
            let base: Result<i64, ErrorV> = match acc {
                ValueV::Null => Ok(0i64),
                ValueV::I64(n) => Ok(n),
                _ => Err(ErrorV::Value(ValueError::IncompatibleDataType)),
            };
            match base {
                Ok(n) => if new is Null {
                    Ok(ValueV::I64(n))
                } else {
                    match n.checked_add(1) {
                        Some(v) => Ok(ValueV::I64(v)),
                        None => Err(ErrorV::Value(ValueError::IntegerOverflow)),
                    }
                },
                Err(e) => Err(e),
            }
        },
        AggregateOperator::Sum => if new is Null {
            Ok(acc)
        } else if acc is Null {
            Ok(new)
        } else {
            spec_binary(BinaryOperator::Plus, acc, new)
        },
        AggregateOperator::Min => if new is Null {
            Ok(acc)
        } else if acc is Null {
            Ok(new)
        } else {
            match spec_binary(BinaryOperator::Lt, new, acc) {
                Ok(ValueV::Bool(true)) => Ok(new),
                Ok(ValueV::Bool(false)) => Ok(acc),
                Ok(_) => Err(ErrorV::Value(ValueError::IncompatibleDataType)),
                Err(e) => Err(e),
            }
        },
        AggregateOperator::Max => if new is Null {
            Ok(acc)
        } else if acc is Null {
            Ok(new)
        } else {
            match spec_binary(BinaryOperator::Gt, new, acc) {
                Ok(ValueV::Bool(true)) => Ok(new),
                Ok(ValueV::Bool(false)) => Ok(acc),
                Ok(_) => Err(ErrorV::Value(ValueError::IncompatibleDataType)),
                Err(e) => Err(e),
            }
        },
    }
}

/// Runs one accumulation step of an aggregate.
pub fn accumulate(op: AggregateOperator, new: &Value, acc: &Value) -> (r: Result<Value, Error>)
    ensures
        crate::error::res_view(r) == spec_accumulate(op, new@, acc@),
{
    match op {
        AggregateOperator::Count => {
            let n: i64 = match acc {
                Value::Null => 0,
                Value::I64(n) => *n,
                _ => {
                    return Err(Error::Value(ValueError::IncompatibleDataType));
                },
            };
            if matches!(new, Value::Null) {
                Ok(Value::I64(n))
            } else {
                match n.checked_add(1) {
                    Some(v) => Ok(Value::I64(v)),
                    None => Err(Error::Value(ValueError::IntegerOverflow)),
                }
            }
        },
        AggregateOperator::Sum => if matches!(new, Value::Null) {
            Ok(acc.clone())
        } else if matches!(acc, Value::Null) {
            Ok(new.clone())
        } else {
            eval_binary(BinaryOperator::Plus, acc, new)
        },
        AggregateOperator::Min => if matches!(new, Value::Null) {
            Ok(acc.clone())
        } else if matches!(acc, Value::Null) {
            Ok(new.clone())
        } else {
            match eval_binary(BinaryOperator::Lt, new, acc) {
                Ok(Value::Bool(true)) => Ok(new.clone()),
                Ok(Value::Bool(false)) => Ok(acc.clone()),
                Ok(_) => Err(Error::Value(ValueError::IncompatibleDataType)),
                Err(e) => Err(e),
            }
        },
        AggregateOperator::Max => if matches!(new, Value::Null) {
            Ok(acc.clone())
        } else if matches!(acc, Value::Null) {
            Ok(new.clone())
        } else {
            match eval_binary(BinaryOperator::Gt, new, acc) {
                Ok(Value::Bool(true)) => Ok(new.clone()),
                Ok(Value::Bool(false)) => Ok(acc.clone()),
                Ok(_) => Err(Error::Value(ValueError::IncompatibleDataType)),
                Err(e) => Err(e),
            }
        },
    }
}

} // verus!
