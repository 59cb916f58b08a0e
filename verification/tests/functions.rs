use multisql::{Error, Value, ValueError};

fn s(text: &str) -> Value {
    Value::Str(String::from(text))
}

#[test]
fn if_null_picks_fallback_on_null() {
    let r = Value::function_if_null(vec![Value::Null, Value::I64(1)]).unwrap();
    assert_eq!(r, Value::I64(1));
}

#[test]
fn if_null_keeps_non_null() {
    let r = Value::function_if_null(vec![Value::I64(0), Value::I64(1)]).unwrap();
    assert_eq!(r, Value::I64(0));
}

#[test]
fn null_if_equal_gives_null() {
    let r = Value::function_null_if(vec![Value::I64(1), Value::I64(1)]).unwrap();
    assert_eq!(r, Value::Null);
}

#[test]
fn null_if_unequal_keeps_first() {
    let r = Value::function_null_if(vec![Value::I64(1), Value::Null]).unwrap();
    assert_eq!(r, Value::I64(1));
    let r = Value::function_null_if(vec![Value::I64(0), Value::I64(1)]).unwrap();
    assert_eq!(r, Value::I64(0));
    let r = Value::function_null_if(vec![Value::I64(1), s("text")]).unwrap();
    assert_eq!(r, Value::I64(1));
}

#[test]
fn iif_true_takes_second() {
    let r = Value::function_iif(vec![Value::Bool(true), Value::I64(0), Value::I64(1)]).unwrap();
    assert_eq!(r, Value::I64(0));
}

#[test]
fn iif_false_and_null_take_third() {
    let r = Value::function_iif(vec![Value::Bool(false), Value::I64(0), Value::I64(1)]).unwrap();
    assert_eq!(r, Value::I64(1));
    let r = Value::function_iif(vec![Value::Null, Value::I64(0), Value::I64(1)]).unwrap();
    assert_eq!(r, Value::I64(1));
}

#[test]
fn case_folding_functions() {
    let r = Value::function_to_lowercase(vec![s("AbC dEf")]).unwrap();
    assert_eq!(r, s("abc def"));
    let r = Value::function_to_uppercase(vec![s("AbC dEf")]).unwrap();
    assert_eq!(r, s("ABC DEF"));
}

#[test]
fn left_and_right_take_character_counts() {
    let r = Value::function_left(vec![s("hello"), Value::I64(2)]).unwrap();
    assert_eq!(r, s("he"));
    let r = Value::function_right(vec![s("hello"), Value::I64(3)]).unwrap();
    assert_eq!(r, s("llo"));
    let r = Value::function_left(vec![s("hi"), Value::I64(10)]).unwrap();
    assert_eq!(r, s("hi"));
    let r = Value::function_right(vec![s("hi"), Value::I64(10)]).unwrap();
    assert_eq!(r, s("hi"));
}

#[test]
fn length_counts_characters() {
    let r = Value::function_length(vec![s("hello")]).unwrap();
    assert_eq!(r, Value::I64(5));
    let r = Value::function_length(vec![Value::Null]).unwrap();
    assert_eq!(r, Value::Null);
}

#[test]
fn concat_joins_in_order() {
    let r = Value::function_concat(vec![s("a"), s("b"), s("c")]).unwrap();
    assert_eq!(r, s("abc"));
    let r = Value::function_concat(vec![s("a"), Value::Null]).unwrap();
    assert_eq!(r, Value::Null);
}

#[test]
fn replace_substitutes_every_occurrence() {
    let r = Value::function_replace(vec![s("banana"), s("an"), s("o")]).unwrap();
    assert_eq!(r, s("booa"));
}

#[test]
fn wrong_arity_names_expected_and_found() {
    let e = Value::function_length(vec![]).unwrap_err();
    assert!(matches!(
        e,
        Error::Value(ValueError::NumberOfFunctionParamsNotMatching { expected: 1, found: 0 })
    ));
    let e = Value::function_if_null(vec![Value::Null]).unwrap_err();
    assert!(matches!(
        e,
        Error::Value(ValueError::NumberOfFunctionParamsNotMatching { expected: 2, found: 1 })
    ));
    let e = Value::function_round(vec![]).unwrap_err();
    assert!(matches!(
        e,
        Error::Value(ValueError::NumberOfFunctionParamsNotMatching { expected: 1, found: 0 })
    ));
}

#[test]
fn round_moves_to_nearest_integer() {
    let r = Value::function_round(vec![Value::F64((1.7f64).to_bits())]).unwrap();
    assert_eq!(r, Value::F64((2.0f64).to_bits()));
    let r = Value::function_round(vec![Value::F64((10000.7f64).to_bits())]).unwrap();
    assert_eq!(r, Value::F64((10001.0f64).to_bits()));
}

#[test]
fn round_half_goes_away_from_zero() {
    let r = Value::function_round(vec![Value::F64((2.5f64).to_bits())]).unwrap();
    assert_eq!(r, Value::F64((3.0f64).to_bits()));
    let r = Value::function_round(vec![Value::F64((-2.5f64).to_bits())]).unwrap();
    assert_eq!(r, Value::F64((-3.0f64).to_bits()));
    let r = Value::function_round(vec![Value::F64((0.49f64).to_bits())]).unwrap();
    assert_eq!(r, Value::F64((0.0f64).to_bits()));
}

#[test]
fn round_keeps_integers() {
    let r = Value::function_round(vec![Value::I64(7), Value::I64(2)]).unwrap();
    assert_eq!(r, Value::I64(7));
}

#[test]
fn pow_is_repeated_multiplication() {
    let r = Value::function_pow(vec![Value::I64(2), Value::I64(10)]).unwrap();
    assert_eq!(r, Value::I64(1024));
    let r = Value::function_pow(vec![Value::I64(-3), Value::I64(3)]).unwrap();
    assert_eq!(r, Value::I64(-27));
    let r = Value::function_pow(vec![Value::I64(5), Value::I64(0)]).unwrap();
    assert_eq!(r, Value::I64(1));
}

#[test]
fn pow_overflow_is_reported() {
    let e = Value::function_pow(vec![Value::I64(10), Value::I64(40)]).unwrap_err();
    assert!(matches!(e, Error::Value(ValueError::IntegerOverflow)));
}

#[test]
fn now_yields_an_instant() {
    let r = Value::function_now(vec![]).unwrap();
    assert!(matches!(r, Value::I64(_)));
}

#[test]
fn date_parts_of_the_epoch() {
    let r = Value::function_year(vec![Value::I64(0)]).unwrap();
    assert_eq!(r, Value::I64(1970));
    let r = Value::function_month(vec![Value::I64(0)]).unwrap();
    assert_eq!(r, Value::I64(1));
    let r = Value::function_day(vec![Value::I64(0)]).unwrap();
    assert_eq!(r, Value::I64(1));
    let r = Value::function_hour(vec![Value::I64(3600 * 5 + 70)]).unwrap();
    assert_eq!(r, Value::I64(5));
}

#[test]
fn date_from_parts_builds_midnight() {
    let r = Value::function_date_from_parts(vec![
        Value::I64(2020),
        Value::I64(2),
        Value::I64(29),
    ])
    .unwrap();
    // chrono: 2020-02-29 00:00:00 UTC
    assert_eq!(r, Value::I64(1582934400));
    let e = Value::function_date_from_parts(vec![
        Value::I64(2021),
        Value::I64(2),
        Value::I64(29),
    ])
    .unwrap_err();
    assert!(matches!(e, Error::Value(ValueError::InvalidDateTime)));
}

#[test]
fn date_add_shifts_by_unit() {
    let day = Value::function_date_add(vec![
        Value::I64(0),
        Value::I64(3),
        Value::Str(String::from("DAY")),
    ])
    .unwrap();
    assert_eq!(day, Value::I64(3 * 86400));
    let month = Value::function_date_add(vec![
        Value::I64(0),
        Value::I64(1),
        Value::Str(String::from("MONTH")),
    ])
    .unwrap();
    assert_eq!(month, Value::I64(31 * 86400));
    let year = Value::function_date_add(vec![
        Value::I64(0),
        Value::I64(-1),
        Value::Str(String::from("YEAR")),
    ])
    .unwrap();
    assert_eq!(year, Value::I64(-365 * 86400));
}

#[test]
fn convert_dispatches_on_target_name() {
    let r = Value::function_convert(vec![s("BOOLEAN"), s("true")]).unwrap();
    assert_eq!(r, Value::Bool(true));
    let r = Value::function_convert(vec![s("integer"), Value::Bool(true)]).unwrap();
    assert_eq!(r, Value::I64(1));
    let r = Value::function_convert(vec![s("TEXT"), Value::I64(-42)]).unwrap();
    assert_eq!(r, s("-42"));
    let r = Value::function_convert(vec![s("TEXT"), Value::Bool(false)]).unwrap();
    assert_eq!(r, s("FALSE"));
    let r =
        Value::function_convert(vec![s("TIMESTAMP"), s("1970-01-02 03:00:00")]).unwrap();
    assert_eq!(r, Value::I64(86400 + 3 * 3600));
    let e = Value::function_convert(vec![s("DECIMAL"), Value::I64(1)]).unwrap_err();
    assert!(matches!(e, Error::Value(ValueError::UnimplementedConvert)));
}

#[test]
fn try_convert_absorbs_failure_into_null() {
    let r = Value::function_try_convert(vec![s("BOOLEAN"), s("maybe")]).unwrap();
    assert_eq!(r, Value::Null);
    let r = Value::function_try_convert(vec![s("INTEGER"), Value::I64(9)]).unwrap();
    assert_eq!(r, Value::I64(9));
}

#[test]
fn negative_counts_are_a_type_error() {
    let e = Value::function_left(vec![s("abc"), Value::I64(-1)]).unwrap_err();
    assert!(matches!(e, Error::Value(ValueError::IncompatibleDataType)));
    let e = Value::function_right(vec![s("abc"), Value::I64(-1)]).unwrap_err();
    assert!(matches!(e, Error::Value(ValueError::IncompatibleDataType)));
}

#[test]
fn non_text_concat_operand_is_a_type_error() {
    let e = Value::function_concat(vec![s("a"), Value::I64(1)]).unwrap_err();
    assert!(matches!(e, Error::Value(ValueError::IncompatibleDataType)));
}

#[test]
fn non_boolean_iif_condition_is_a_type_error() {
    let e = Value::function_iif(vec![Value::I64(1), Value::I64(0), Value::I64(1)]).unwrap_err();
    assert!(matches!(e, Error::Value(ValueError::IncompatibleDataType)));
}

#[test]
fn null_propagates_through_string_and_date_functions() {
    assert_eq!(Value::function_to_lowercase(vec![Value::Null]).unwrap(), Value::Null);
    assert_eq!(
        Value::function_left(vec![Value::Null, Value::I64(1)]).unwrap(),
        Value::Null
    );
    assert_eq!(Value::function_year(vec![Value::Null]).unwrap(), Value::Null);
    assert_eq!(
        Value::function_round(vec![Value::Null, Value::I64(0)]).unwrap(),
        Value::Null
    );
    assert_eq!(
        Value::function_pow(vec![Value::I64(2), Value::Null]).unwrap(),
        Value::Null
    );
}
