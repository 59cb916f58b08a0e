use multisql::ops::{accumulate, eval_binary, eval_unary, AggregateOperator};
use multisql::{BinaryOperator, DataType, Error, UnaryOperator, Value, ValueError};

#[test]
fn arithmetic_on_integers() {
    let r = eval_binary(BinaryOperator::Plus, &Value::I64(2), &Value::I64(3)).unwrap();
    assert_eq!(r, Value::I64(5));
    let r = eval_binary(BinaryOperator::Minus, &Value::I64(2), &Value::I64(3)).unwrap();
    assert_eq!(r, Value::I64(-1));
    let r = eval_binary(BinaryOperator::Multiply, &Value::I64(-4), &Value::I64(3)).unwrap();
    assert_eq!(r, Value::I64(-12));
    let r = eval_binary(BinaryOperator::Divide, &Value::I64(7), &Value::I64(2)).unwrap();
    assert_eq!(r, Value::I64(3));
    let r = eval_binary(BinaryOperator::Modulo, &Value::I64(7), &Value::I64(2)).unwrap();
    assert_eq!(r, Value::I64(1));
}

#[test]
fn overflow_is_an_error_not_a_wrap() {
    let e = eval_binary(BinaryOperator::Plus, &Value::I64(i64::MAX), &Value::I64(1)).unwrap_err();
    assert!(matches!(e, Error::Value(ValueError::IntegerOverflow)));
    let e = eval_unary(UnaryOperator::Minus, &Value::I64(i64::MIN)).unwrap_err();
    assert!(matches!(e, Error::Value(ValueError::IntegerOverflow)));
}

#[test]
fn null_propagates_through_operators() {
    let r = eval_binary(BinaryOperator::Plus, &Value::Null, &Value::I64(1)).unwrap();
    assert_eq!(r, Value::Null);
    let r = eval_binary(BinaryOperator::Eq, &Value::Null, &Value::I64(0)).unwrap();
    assert_eq!(r, Value::Null);
    let r = eval_unary(UnaryOperator::Not, &Value::Null).unwrap();
    assert_eq!(r, Value::Null);
}

#[test]
fn mismatched_tags_are_a_type_error() {
    let e = eval_binary(BinaryOperator::Eq, &Value::I64(1), &Value::Bool(true)).unwrap_err();
    assert!(matches!(e, Error::Value(ValueError::IncompatibleDataType)));
}

#[test]
fn float_comparisons_follow_ieee() {
    let nan = Value::F64(f64::NAN.to_bits());
    let one = Value::F64((1.0f64).to_bits());
    let zero_pos = Value::F64((0.0f64).to_bits());
    let zero_neg = Value::F64((-0.0f64).to_bits());
    let minus_two = Value::F64((-2.0f64).to_bits());
    assert_eq!(eval_binary(BinaryOperator::Eq, &nan, &nan).unwrap(), Value::Bool(false));
    assert_eq!(
        eval_binary(BinaryOperator::Eq, &zero_pos, &zero_neg).unwrap(),
        Value::Bool(true)
    );
    assert_eq!(eval_binary(BinaryOperator::Lt, &minus_two, &one).unwrap(), Value::Bool(true));
    assert_eq!(eval_binary(BinaryOperator::Gt, &minus_two, &one).unwrap(), Value::Bool(false));
    assert_eq!(eval_binary(BinaryOperator::LtEq, &one, &one).unwrap(), Value::Bool(true));
}

#[test]
fn float_negation_flips_the_sign() {
    let r = eval_unary(UnaryOperator::Minus, &Value::F64((1.5f64).to_bits())).unwrap();
    assert_eq!(r, Value::F64((-1.5f64).to_bits()));
}

#[test]
fn string_operators() {
    let a = Value::Str(String::from("ab"));
    let b = Value::Str(String::from("cd"));
    let r = eval_binary(BinaryOperator::StringConcat, &a, &b).unwrap();
    assert_eq!(r, Value::Str(String::from("abcd")));
    let r = eval_binary(BinaryOperator::Eq, &a, &a.clone()).unwrap();
    assert_eq!(r, Value::Bool(true));
    let r = eval_binary(BinaryOperator::NotEq, &a, &b).unwrap();
    assert_eq!(r, Value::Bool(true));
}

#[test]
fn boolean_logic() {
    let t = Value::Bool(true);
    let f = Value::Bool(false);
    assert_eq!(eval_binary(BinaryOperator::And, &t, &f).unwrap(), Value::Bool(false));
    assert_eq!(eval_binary(BinaryOperator::Or, &t, &f).unwrap(), Value::Bool(true));
    assert_eq!(eval_unary(UnaryOperator::Not, &t).unwrap(), Value::Bool(false));
}

#[test]
fn accumulators_skip_nulls() {
    let acc = accumulate(AggregateOperator::Count, &Value::I64(5), &Value::Null).unwrap();
    assert_eq!(acc, Value::I64(1));
    let acc = accumulate(AggregateOperator::Count, &Value::Null, &acc).unwrap();
    assert_eq!(acc, Value::I64(1));
    let acc = accumulate(AggregateOperator::Sum, &Value::I64(5), &Value::Null).unwrap();
    assert_eq!(acc, Value::I64(5));
    let acc = accumulate(AggregateOperator::Sum, &Value::I64(3), &acc).unwrap();
    assert_eq!(acc, Value::I64(8));
    let acc = accumulate(AggregateOperator::Min, &Value::I64(4), &Value::I64(9)).unwrap();
    assert_eq!(acc, Value::I64(4));
    let acc = accumulate(AggregateOperator::Max, &Value::I64(4), &Value::I64(9)).unwrap();
    assert_eq!(acc, Value::I64(9));
}

#[test]
fn declared_types_accept_their_values() {
    assert!(Value::I64(1).validate_type(&DataType::Int).is_ok());
    assert!(Value::I64(1).validate_type(&DataType::Timestamp).is_ok());
    assert!(Value::Bool(true).validate_type(&DataType::Boolean).is_ok());
    assert!(Value::F64(0).validate_type(&DataType::Float).is_ok());
    assert!(Value::Str(String::new()).validate_type(&DataType::Text).is_ok());
    assert!(Value::Null.validate_type(&DataType::Int).is_ok());
    assert!(Value::Str(String::new()).validate_type(&DataType::Int).is_err());
    assert!(Value::Null.validate_null(false).is_err());
    assert!(Value::Null.validate_null(true).is_ok());
}
