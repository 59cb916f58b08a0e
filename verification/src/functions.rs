//! The scalar function library: conditional, string, date and math
//! functions, dispatched by a closed set of function kinds.
//!
//! Every function checks its argument count before dispatch and fails with a
//! parameter-count error naming the expected and found counts. Null
//! propagates through every function except the explicitly null-aware ones
//! (IFNULL, NULLIF, IIF).

use vstd::prelude::*;
use vstd::string::StringExecFns;

use crate::calendar;
use crate::error::{Error, ErrorV, ValueError};
use crate::fbits;
use crate::ops::{spec_same_value, same_value};
use crate::text;
use crate::value::{Value, ValueV};

verus! {

/// The closed set of scalar and conversion functions a tree node may apply,
/// resolved once from the parsed name. `NOW()` is not here: the clock is
/// read once, when the tree is built, so that one statement sees one
/// instant.
#[derive(PartialEq, Eq, Structural, Clone, Copy, Debug)]
pub enum FunctionKind {
    IfNull,
    NullIf,
    Iif,
    ToLowercase,
    ToUppercase,
    Left,
    Right,
    Length,
    Concat,
    Replace,
    Year,
    Month,
    Day,
    Hour,
    DateAdd,
    DateFromParts,
    Round,
    Pow,
    Convert,
    TryConvert,
}

/// The images of a list of values.
pub open spec fn vals_view(s: Seq<Value>) -> Seq<ValueV> {
    s.map_values(|v: Value| v@)
}

/// The arity error for a function that wanted `expected` arguments.
pub open spec fn arity_err(expected: int, found: int) -> ErrorV {
    ErrorV::Value(
        ValueError::NumberOfFunctionParamsNotMatching {
            expected: expected as usize,
            found: found as usize,
        },
    )
}

/// What IFNULL yields: the first argument, or the second when the first is
/// null.
pub open spec fn spec_function_if_null(args: Seq<ValueV>) -> Result<ValueV, ErrorV> {
    if args.len() != 2 {
        Err(arity_err(2, args.len() as int))
    } else if args[0] is Null {
        Ok(args[1])
    } else {
        Ok(args[0])
    }
}

/// What NULLIF yields: null when the two arguments hold the same content,
/// else the first argument.
pub open spec fn spec_function_null_if(args: Seq<ValueV>) -> Result<ValueV, ErrorV> {
    if args.len() != 2 {
        Err(arity_err(2, args.len() as int))
    } else if spec_same_value(args[0], args[1]) {
        Ok(ValueV::Null)
    } else {
        Ok(args[0])
    }
}

/// What IIF yields: the second argument when the first is boolean true, the
/// third when it is boolean false or null.
pub open spec fn spec_function_iif(args: Seq<ValueV>) -> Result<ValueV, ErrorV> {
    if args.len() != 3 {
        Err(arity_err(3, args.len() as int))
    } else {
        match args[0] {
            ValueV::Bool(true) => Ok(args[1]),
            ValueV::Bool(false) => Ok(args[2]),
            ValueV::Null => Ok(args[2]),
            _ => Err(ErrorV::Value(ValueError::IncompatibleDataType)),
        }
    }
}

/// What LOWER yields on one text argument; null propagates.
pub open spec fn spec_function_to_lowercase(args: Seq<ValueV>) -> Result<ValueV, ErrorV> {
    if args.len() != 1 {
        Err(arity_err(1, args.len() as int))
    } else {
        match args[0] {
            ValueV::Null => Ok(ValueV::Null),
            ValueV::Str(s) => Ok(ValueV::Str(text::lower_of(s))),
            _ => Err(ErrorV::Value(ValueError::IncompatibleDataType)),
        }
    }
}

/// What UPPER yields on one text argument; null propagates.
pub open spec fn spec_function_to_uppercase(args: Seq<ValueV>) -> Result<ValueV, ErrorV> {
    if args.len() != 1 {
        Err(arity_err(1, args.len() as int))
    } else {
        match args[0] {
            ValueV::Null => Ok(ValueV::Null),
            ValueV::Str(s) => Ok(ValueV::Str(text::upper_of(s))),
            _ => Err(ErrorV::Value(ValueError::IncompatibleDataType)),
        }
    }
}

/// What LEFT yields: the first `n` characters of the text, all of it when it
/// is shorter; null propagates; a negative count is a type error.
pub open spec fn spec_function_left(args: Seq<ValueV>) -> Result<ValueV, ErrorV> {
    if args.len() != 2 {
        Err(arity_err(2, args.len() as int))
    } else if args[0] is Null || args[1] is Null {
        Ok(ValueV::Null)
    } else {
        match (args[0], args[1]) {
            (ValueV::Str(s), ValueV::I64(n)) => if n < 0 {
                Err(ErrorV::Value(ValueError::IncompatibleDataType))
            } else {
                Ok(
                    ValueV::Str(
                        s.take(
                            if n <= s.len() {
                                n as int
                            } else {
                                s.len() as int
                            },
                        ),
                    ),
                )
            },
            _ => Err(ErrorV::Value(ValueError::IncompatibleDataType)),
        }
    }
}

/// What RIGHT yields: the last `n` characters of the text, all of it when it
/// is shorter; null propagates; a negative count is a type error.
pub open spec fn spec_function_right(args: Seq<ValueV>) -> Result<ValueV, ErrorV> {
    if args.len() != 2 {
        Err(arity_err(2, args.len() as int))
    } else if args[0] is Null || args[1] is Null {
        Ok(ValueV::Null)
    } else {
        match (args[0], args[1]) {
            (ValueV::Str(s), ValueV::I64(n)) => if n < 0 {
                Err(ErrorV::Value(ValueError::IncompatibleDataType))
            } else {
                Ok(
                    ValueV::Str(
                        s.skip(
                            if n <= s.len() {
                                s.len() - n as int
                            } else {
                                0
                            },
                        ),
                    ),
                )
            },
            _ => Err(ErrorV::Value(ValueError::IncompatibleDataType)),
        }
    }
}

/// What LENGTH yields: the character count of the text; null propagates.
pub open spec fn spec_function_length(args: Seq<ValueV>) -> Result<ValueV, ErrorV> {
    if args.len() != 1 {
        Err(arity_err(1, args.len() as int))
    } else {
        match args[0] {
            ValueV::Null => Ok(ValueV::Null),
            ValueV::Str(s) => if s.len() > i64::MAX {
                Err(ErrorV::Value(ValueError::IntegerOverflow))
            } else {
                Ok(ValueV::I64(s.len() as i64))
            },
            _ => Err(ErrorV::Value(ValueError::IncompatibleDataType)),
        }
    }
}

/// The tail of a CONCAT evaluation: text gathered so far, then the remaining
/// arguments. A null argument makes the whole result null; a non-text one is
/// a type error.
pub open spec fn spec_concat_from(acc: Seq<char>, rest: Seq<ValueV>) -> Result<ValueV, ErrorV>
    decreases rest.len(),
{
    if rest.len() == 0 {
        Ok(ValueV::Str(acc))
    } else {
        match rest[0] {
            ValueV::Null => Ok(ValueV::Null),
            ValueV::Str(s) => spec_concat_from(acc + s, rest.drop_first()),
            _ => Err(ErrorV::Value(ValueError::IncompatibleDataType)),
        }
    }
}

/// What CONCAT yields: its text arguments joined in order; null anywhere
/// makes it null.
pub open spec fn spec_function_concat(args: Seq<ValueV>) -> Result<ValueV, ErrorV> {
    if args.len() < 1 {
        Err(arity_err(1, 0))
    } else {
        spec_concat_from(Seq::empty(), args)
    }
}

/// What REPLACE yields: the first text with every occurrence of the second
/// replaced by the third; null propagates.
pub open spec fn spec_function_replace(args: Seq<ValueV>) -> Result<ValueV, ErrorV> {
    if args.len() != 3 {
        Err(arity_err(3, args.len() as int))
    } else if args[0] is Null || args[1] is Null || args[2] is Null {
        Ok(ValueV::Null)
    } else {
        match (args[0], args[1], args[2]) {
            (ValueV::Str(s), ValueV::Str(from), ValueV::Str(to)) => Ok(
                ValueV::Str(text::replace_of(s, from, to)),
            ),
            _ => Err(ErrorV::Value(ValueError::IncompatibleDataType)),
        }
    }
}

/// The calendar part a one-argument date function extracts from an epoch
/// instant; null propagates.
pub open spec fn spec_date_part(
    args: Seq<ValueV>,
    part: spec_fn(i64) -> i64,
) -> Result<ValueV, ErrorV> {
    if args.len() != 1 {
        Err(arity_err(1, args.len() as int))
    } else {
        match args[0] {
            ValueV::Null => Ok(ValueV::Null),
            ValueV::I64(secs) => Ok(ValueV::I64(part(secs))),
            _ => Err(ErrorV::Value(ValueError::IncompatibleDataType)),
        }
    }
}

/// What YEAR yields.
pub open spec fn spec_function_year(args: Seq<ValueV>) -> Result<ValueV, ErrorV> {
    spec_date_part(args, |secs: i64| calendar::year_of(secs))
}

/// What MONTH yields.
pub open spec fn spec_function_month(args: Seq<ValueV>) -> Result<ValueV, ErrorV> {
    spec_date_part(args, |secs: i64| calendar::month_of(secs))
}

/// What DAY yields.
pub open spec fn spec_function_day(args: Seq<ValueV>) -> Result<ValueV, ErrorV> {
    spec_date_part(args, |secs: i64| calendar::day_of(secs))
}

/// What HOUR yields.
pub open spec fn spec_function_hour(args: Seq<ValueV>) -> Result<ValueV, ErrorV> {
    spec_date_part(args, |secs: i64| calendar::hour_of(secs))
}

/// What NOW yields: some epoch instant; which one depends on the clock, so
/// only the shape is pinned.
pub open spec fn spec_function_now_ok(args: Seq<ValueV>, r: Result<ValueV, ErrorV>) -> bool {
    if args.len() != 0 {
        r == Err::<ValueV, ErrorV>(arity_err(0, args.len() as int))
    } else {
        r matches Ok(v) && v is I64
    }
}

/// What a calendar-month shift of `secs` by `months` yields: the shifted
/// instant, or an invalid-date error when chrono has no answer.
pub open spec fn spec_month_shift(secs: i64, months: i64) -> Result<ValueV, ErrorV> {
    if months >= 0 {
        if months > u32::MAX {
            Err(ErrorV::Value(ValueError::InvalidDateTime))
        } else {
            match calendar::month_add_of(secs, months as u32) {
                Some(t) => Ok(ValueV::I64(t)),
                None => Err(ErrorV::Value(ValueError::InvalidDateTime)),
            }
        }
    } else {
        if -months > u32::MAX {
            Err(ErrorV::Value(ValueError::InvalidDateTime))
        } else {
            match calendar::month_sub_of(secs, (-months) as u32) {
                Some(t) => Ok(ValueV::I64(t)),
                None => Err(ErrorV::Value(ValueError::InvalidDateTime)),
            }
        }
    }
}

/// What DATE_ADD yields: the instant shifted by an amount of the named
/// calendar unit (`YEAR`, `MONTH`, `DAY`, `HOUR`, `MINUTE` or `SECOND`);
/// null propagates.
pub open spec fn spec_function_date_add(args: Seq<ValueV>) -> Result<ValueV, ErrorV> {
    if args.len() != 3 {
        Err(arity_err(3, args.len() as int))
    } else if args[0] is Null || args[1] is Null || args[2] is Null {
        Ok(ValueV::Null)
    } else {
        match (args[0], args[1], args[2]) {
            (ValueV::I64(secs), ValueV::I64(amount), ValueV::Str(part)) => {
                if part == "YEAR"@ {
                    if amount.checked_mul(12) is Some {
                        spec_month_shift(secs, (amount * 12) as i64)
                    } else {
                        Err(ErrorV::Value(ValueError::IntegerOverflow))
                    }
                } else if part == "MONTH"@ {
                    spec_month_shift(secs, amount)
                } else if part == "DAY"@ {
                    spec_second_shift(secs, amount, 86400)
                } else if part == "HOUR"@ {
                    spec_second_shift(secs, amount, 3600)
                } else if part == "MINUTE"@ {
                    spec_second_shift(secs, amount, 60)
                } else if part == "SECOND"@ {
                    spec_second_shift(secs, amount, 1)
                } else {
                    Err(ErrorV::Value(ValueError::IncompatibleDataType))
                }
            },
            _ => Err(ErrorV::Value(ValueError::IncompatibleDataType)),
        }
    }
}

/// What a shift of `secs` by `amount` units of `unit_secs` seconds yields.
pub open spec fn spec_second_shift(secs: i64, amount: i64, unit_secs: i64) -> Result<
    ValueV,
    ErrorV,
> {
    match amount.checked_mul(unit_secs) {
        Some(delta) => match secs.checked_add(delta) {
            Some(t) => Ok(ValueV::I64(t)),
            None => Err(ErrorV::Value(ValueError::IntegerOverflow)),
        },
        None => Err(ErrorV::Value(ValueError::IntegerOverflow)),
    }
}

/// What DATE_FROM_PARTS yields: the midnight instant of the year, month and
/// day given; null propagates; parts chrono rejects are an invalid-date
/// error.
pub open spec fn spec_function_date_from_parts(args: Seq<ValueV>) -> Result<ValueV, ErrorV> {
    if args.len() != 3 {
        Err(arity_err(3, args.len() as int))
    } else if args[0] is Null || args[1] is Null || args[2] is Null {
        Ok(ValueV::Null)
    } else {
        match (args[0], args[1], args[2]) {
            (ValueV::I64(y), ValueV::I64(m), ValueV::I64(d)) => {
                if y < i32::MIN || y > i32::MAX || m < 0 || m > u32::MAX || d < 0 || d
                    > u32::MAX {
                    Err(ErrorV::Value(ValueError::InvalidDateTime))
                } else {
                    match calendar::date_timestamp_of(y as i32, m as u32, d as u32) {
                        Some(t) => Ok(ValueV::I64(t)),
                        None => Err(ErrorV::Value(ValueError::InvalidDateTime)),
                    }
                }
            },
            _ => Err(ErrorV::Value(ValueError::IncompatibleDataType)),
        }
    }
}

/// What ROUND yields: an integer is already round; a float moves to the
/// nearest integer, half away from zero, when the place count is zero. Null
/// in either argument propagates.
pub open spec fn spec_function_round(args: Seq<ValueV>) -> Result<ValueV, ErrorV> {
    if args.len() < 1 || args.len() > 2 {
        Err(arity_err(1, args.len() as int))
    } else {
        let places = if args.len() == 2 {
            args[1]
        } else {
            ValueV::I64(0)
        };
        if args[0] is Null || places is Null {
            Ok(ValueV::Null)
        } else {
            match (args[0], places) {
                (ValueV::I64(v), ValueV::I64(p)) => if p >= 0 {
                    Ok(ValueV::I64(v))
                } else {
                    Err(ErrorV::Value(ValueError::IncompatibleDataType))
                },
                (ValueV::F64(bits), ValueV::I64(p)) => if p == 0 {
                    Ok(ValueV::F64(fbits::spec_f64_round(bits)))
                } else {
                    Err(ErrorV::Value(ValueError::IncompatibleDataType))
                },
                _ => Err(ErrorV::Value(ValueError::IncompatibleDataType)),
            }
        }
    }
}

/// The chain of checked multiplications a POW evaluation runs: one factor of
/// `base` per step, each step checked against the 64-bit range.
pub open spec fn spec_pow_i64(base: i64, exp: int) -> Result<i64, ErrorV>
    decreases exp,
{
    if exp <= 0 {
        Ok(1i64)
    } else {
        match spec_pow_i64(base, exp - 1) {
            Ok(v) => match v.checked_mul(base) {
                Some(w) => Ok(w),
                None => Err(ErrorV::Value(ValueError::IntegerOverflow)),
            },
            Err(e) => Err(e),
        }
    }
}

/// What POW yields on integer base and non-negative integer exponent; null
/// propagates; a negative exponent is a type error.
pub open spec fn spec_function_pow(args: Seq<ValueV>) -> Result<ValueV, ErrorV> {
    if args.len() != 2 {
        Err(arity_err(2, args.len() as int))
    } else if args[0] is Null || args[1] is Null {
        Ok(ValueV::Null)
    } else {
        match (args[0], args[1]) {
            (ValueV::I64(base), ValueV::I64(exp)) => if exp < 0 {
                Err(ErrorV::Value(ValueError::IncompatibleDataType))
            } else {
                match spec_pow_i64(base, exp as int) {
                    Ok(v) => Ok(ValueV::I64(v)),
                    Err(e) => Err(e),
                }
            },
            _ => Err(ErrorV::Value(ValueError::IncompatibleDataType)),
        }
    }
}

/// What casting a value to the named target type yields. The target name is
/// already folded to uppercase. Null casts to null everywhere; a target this
/// engine does not know is its own error.
pub open spec fn spec_cast_to(target: Seq<char>, v: ValueV) -> Result<ValueV, ErrorV> {
    if target == "BOOLEAN"@ {
        match v {
            ValueV::Null => Ok(ValueV::Null),
            ValueV::Bool(b) => Ok(ValueV::Bool(b)),
            ValueV::I64(n) => if n == 0 {
                Ok(ValueV::Bool(false))
            } else if n == 1 {
                Ok(ValueV::Bool(true))
            } else {
                Err(ErrorV::Value(ValueError::IncompatibleDataType))
            },
            ValueV::Str(s) => if text::upper_of(s) == "TRUE"@ {
                Ok(ValueV::Bool(true))
            } else if text::upper_of(s) == "FALSE"@ {
                Ok(ValueV::Bool(false))
            } else {
                Err(ErrorV::Value(ValueError::IncompatibleDataType))
            },
            _ => Err(ErrorV::Value(ValueError::IncompatibleDataType)),
        }
    } else if target == "INTEGER"@ {
        match v {
            ValueV::Null => Ok(ValueV::Null),
            ValueV::I64(n) => Ok(ValueV::I64(n)),
            ValueV::Bool(b) => Ok(
                ValueV::I64(
                    if b {
                        1
                    } else {
                        0
                    },
                ),
            ),
            _ => Err(ErrorV::Value(ValueError::IncompatibleDataType)),
        }
    } else if target == "FLOAT"@ {
        match v {
            ValueV::Null => Ok(ValueV::Null),
            ValueV::F64(bits) => Ok(ValueV::F64(bits)),
            _ => Err(ErrorV::Value(ValueError::IncompatibleDataType)),
        }
    } else if target == "TEXT"@ {
        match v {
            ValueV::Null => Ok(ValueV::Null),
            ValueV::Str(s) => Ok(ValueV::Str(s)),
            ValueV::I64(n) => Ok(ValueV::Str(text::dec_int(n as int))),
            ValueV::Bool(b) => Ok(
                ValueV::Str(
                    if b {
                        "TRUE"@
                    } else {
                        "FALSE"@
                    },
                ),
            ),
            _ => Err(ErrorV::Value(ValueError::IncompatibleDataType)),
        }
    } else if target == "TIMESTAMP"@ {
        match v {
            ValueV::Null => Ok(ValueV::Null),
            ValueV::I64(n) => Ok(ValueV::I64(n)),
            ValueV::Str(s) => match calendar::text_timestamp_of(s) {
                Some(t) => Ok(ValueV::I64(t)),
                None => Err(ErrorV::Value(ValueError::InvalidDateTime)),
            },
            _ => Err(ErrorV::Value(ValueError::IncompatibleDataType)),
        }
    } else {
        Err(ErrorV::Value(ValueError::UnimplementedConvert))
    }
}

/// What CONVERT yields: the second argument cast to the type the first
/// argument names (case-insensitively); an optional third argument selects a
/// conversion rule, of which this engine offers only the default. The target
/// must be text.
pub open spec fn spec_function_convert(args: Seq<ValueV>) -> Result<ValueV, ErrorV> {
    if args.len() < 2 || args.len() > 3 {
        Err(arity_err(2, args.len() as int))
    } else {
        match args[0] {
            ValueV::Str(target) => spec_cast_to(text::upper_of(target), args[1]),
            _ => Err(ErrorV::Value(ValueError::IncompatibleDataType)),
        }
    }
}

/// What TRY_CONVERT yields: the CONVERT result, with every failure absorbed
/// into null.
pub open spec fn spec_function_try_convert(args: Seq<ValueV>) -> Result<ValueV, ErrorV> {
    match spec_function_convert(args) {
        Ok(v) => Ok(v),
        Err(_) => Ok(ValueV::Null),
    }
}

impl Value {
    /// Casts a value to the target type named by `target`, which is already
    /// folded to uppercase.
    fn cast_to(target: &String, v: &Value) -> (r: Result<Self, Error>)
        ensures
            crate::error::res_view(r) == spec_cast_to(target@, v@),
    {
        if text::str_content_eq(target.as_str(), "BOOLEAN") {
            match v {
                Value::Null => Ok(Value::Null),
                Value::Bool(b) => Ok(Value::Bool(*b)),
                Value::I64(n) => if *n == 0 {
                    Ok(Value::Bool(false))
                } else if *n == 1 {
                    Ok(Value::Bool(true))
                } else {
                    Err(Error::Value(ValueError::IncompatibleDataType))
                },
                Value::Str(s) => {
                    let up = text::uppercase(s.as_str());
                    if text::str_content_eq(up.as_str(), "TRUE") {
                        Ok(Value::Bool(true))
                    } else if text::str_content_eq(up.as_str(), "FALSE") {
                        Ok(Value::Bool(false))
                    } else {
                        Err(Error::Value(ValueError::IncompatibleDataType))
                    }
                },
                _ => Err(Error::Value(ValueError::IncompatibleDataType)),
            }
        } else if text::str_content_eq(target.as_str(), "INTEGER") {
            match v {
                Value::Null => Ok(Value::Null),
                Value::I64(n) => Ok(Value::I64(*n)),
                Value::Bool(b) => Ok(
                    Value::I64(
                        if *b {
                            1
                        } else {
                            0
                        },
                    ),
                ),
                _ => Err(Error::Value(ValueError::IncompatibleDataType)),
            }
        } else if text::str_content_eq(target.as_str(), "FLOAT") {
            match v {
                Value::Null => Ok(Value::Null),
                Value::F64(bits) => Ok(Value::F64(*bits)),
                _ => Err(Error::Value(ValueError::IncompatibleDataType)),
            }
        } else if text::str_content_eq(target.as_str(), "TEXT") {
            match v {
                Value::Null => Ok(Value::Null),
                Value::Str(s) => Ok(Value::Str(s.clone())),
                Value::I64(n) => Ok(Value::Str(text::i64_to_string(*n))),
                Value::Bool(b) => {
                    let s = if *b {
                        String::from_str("TRUE")
                    } else {
                        String::from_str("FALSE")
                    };
                    Ok(Value::Str(s))
                },
                _ => Err(Error::Value(ValueError::IncompatibleDataType)),
            }
        } else if text::str_content_eq(target.as_str(), "TIMESTAMP") {
            match v {
                Value::Null => Ok(Value::Null),
                Value::I64(n) => Ok(Value::I64(*n)),
                Value::Str(s) => match calendar::parse_timestamp(s.as_str()) {
                    Some(t) => Ok(Value::I64(t)),
                    None => Err(Error::Value(ValueError::InvalidDateTime)),
                },
                _ => Err(Error::Value(ValueError::IncompatibleDataType)),
            }
        } else {
            Err(Error::Value(ValueError::UnimplementedConvert))
        }
    }

    /// CONVERT: the second argument cast to the type the first argument
    /// names.
    pub fn function_convert(arguments: Vec<Self>) -> (r: Result<Self, Error>)
        ensures
            crate::error::res_view(r) == spec_function_convert(vals_view(arguments@)),
    {
        if arguments.len() < 2 || arguments.len() > 3 {
            return Err(
                Error::Value(
                    ValueError::NumberOfFunctionParamsNotMatching {
                        expected: 2,
                        found: arguments.len(),
                    },
                ),
            );
        }
        match &arguments[0] {
            Value::Str(target) => {
                let up = text::uppercase(target.as_str());
                Value::cast_to(&up, &arguments[1])
            },
            _ => Err(Error::Value(ValueError::IncompatibleDataType)),
        }
    }

    /// TRY_CONVERT: CONVERT with every failure absorbed into null.
    pub fn function_try_convert(arguments: Vec<Self>) -> (r: Result<Self, Error>)
        ensures
            crate::error::res_view(r) == spec_function_try_convert(vals_view(arguments@)),
    {
        match Value::function_convert(arguments) {
            Ok(v) => Ok(v),
            Err(_) => Ok(Value::Null),
        }
    }

    /// IFNULL: the first argument, or the second when the first is null.
    pub fn function_if_null(arguments: Vec<Self>) -> (r: Result<Self, Error>)
        ensures
            crate::error::res_view(r) == spec_function_if_null(vals_view(arguments@)),
    {
        if arguments.len() != 2 {
            return Err(
                Error::Value(
                    ValueError::NumberOfFunctionParamsNotMatching {
                        expected: 2,
                        found: arguments.len(),
                    },
                ),
            );
        }
        if matches!(&arguments[0], Value::Null) {
            Ok(arguments[1].clone())
        } else {
            Ok(arguments[0].clone())
        }
    }

    /// NULLIF: null when both arguments hold the same content, else the
    /// first.
    pub fn function_null_if(arguments: Vec<Self>) -> (r: Result<Self, Error>)
        ensures
            crate::error::res_view(r) == spec_function_null_if(vals_view(arguments@)),
    {
        if arguments.len() != 2 {
            return Err(
                Error::Value(
                    ValueError::NumberOfFunctionParamsNotMatching {
                        expected: 2,
                        found: arguments.len(),
                    },
                ),
            );
        }
        if same_value(&arguments[0], &arguments[1]) {
            Ok(Value::Null)
        } else {
            Ok(arguments[0].clone())
        }
    }

    /// IIF: the second argument on boolean true, the third on boolean false
    /// or null.
    pub fn function_iif(arguments: Vec<Self>) -> (r: Result<Self, Error>)
        ensures
            crate::error::res_view(r) == spec_function_iif(vals_view(arguments@)),
    {
        if arguments.len() != 3 {
            return Err(
                Error::Value(
                    ValueError::NumberOfFunctionParamsNotMatching {
                        expected: 3,
                        found: arguments.len(),
                    },
                ),
            );
        }
        match &arguments[0] {
            Value::Bool(true) => Ok(arguments[1].clone()),
            Value::Bool(false) => Ok(arguments[2].clone()),
            Value::Null => Ok(arguments[2].clone()),
            _ => Err(Error::Value(ValueError::IncompatibleDataType)),
        }
    }

    /// LOWER: the text argument folded to lowercase.
    pub fn function_to_lowercase(arguments: Vec<Self>) -> (r: Result<Self, Error>)
        ensures
            crate::error::res_view(r) == spec_function_to_lowercase(vals_view(arguments@)),
    {
        if arguments.len() != 1 {
            return Err(
                Error::Value(
                    ValueError::NumberOfFunctionParamsNotMatching {
                        expected: 1,
                        found: arguments.len(),
                    },
                ),
            );
        }
        match &arguments[0] {
            Value::Null => Ok(Value::Null),
            Value::Str(s) => Ok(Value::Str(text::lowercase(s.as_str()))),
            _ => Err(Error::Value(ValueError::IncompatibleDataType)),
        }
    }

    /// UPPER: the text argument folded to uppercase.
    pub fn function_to_uppercase(arguments: Vec<Self>) -> (r: Result<Self, Error>)
        ensures
            crate::error::res_view(r) == spec_function_to_uppercase(vals_view(arguments@)),
    {
        if arguments.len() != 1 {
            return Err(
                Error::Value(
                    ValueError::NumberOfFunctionParamsNotMatching {
                        expected: 1,
                        found: arguments.len(),
                    },
                ),
            );
        }
        match &arguments[0] {
            Value::Null => Ok(Value::Null),
            Value::Str(s) => Ok(Value::Str(text::uppercase(s.as_str()))),
            _ => Err(Error::Value(ValueError::IncompatibleDataType)),
        }
    }

    /// LEFT: the first `n` characters of the text.
    pub fn function_left(arguments: Vec<Self>) -> (r: Result<Self, Error>)
        ensures
            crate::error::res_view(r) == spec_function_left(vals_view(arguments@)),
    {
        if arguments.len() != 2 {
            return Err(
                Error::Value(
                    ValueError::NumberOfFunctionParamsNotMatching {
                        expected: 2,
                        found: arguments.len(),
                    },
                ),
            );
        }
        if matches!(&arguments[0], Value::Null) || matches!(&arguments[1], Value::Null) {
            return Ok(Value::Null);
        }
        match (&arguments[0], &arguments[1]) {
            (Value::Str(s), Value::I64(n)) => if *n < 0 {
                Err(Error::Value(ValueError::IncompatibleDataType))
            } else {
                let len = text::char_len(s);
                let k: usize = if (*n as u64) <= (len as u64) {
                    *n as usize
                } else {
                    len
                };
                Ok(Value::Str(text::left_chars(s, k)))
            },
            _ => Err(Error::Value(ValueError::IncompatibleDataType)),
        }
    }

    /// RIGHT: the last `n` characters of the text.
    pub fn function_right(arguments: Vec<Self>) -> (r: Result<Self, Error>)
        ensures
            crate::error::res_view(r) == spec_function_right(vals_view(arguments@)),
    {
        if arguments.len() != 2 {
            return Err(
                Error::Value(
                    ValueError::NumberOfFunctionParamsNotMatching {
                        expected: 2,
                        found: arguments.len(),
                    },
                ),
            );
        }
        if matches!(&arguments[0], Value::Null) || matches!(&arguments[1], Value::Null) {
            return Ok(Value::Null);
        }
        match (&arguments[0], &arguments[1]) {
            (Value::Str(s), Value::I64(n)) => if *n < 0 {
                Err(Error::Value(ValueError::IncompatibleDataType))
            } else {
                let len = text::char_len(s);
                let k: usize = if (*n as u64) <= (len as u64) {
                    *n as usize
                } else {
                    len
                };
                Ok(Value::Str(text::right_chars(s, k)))
            },
            _ => Err(Error::Value(ValueError::IncompatibleDataType)),
        }
    }

    /// LENGTH: the character count of the text.
    pub fn function_length(arguments: Vec<Self>) -> (r: Result<Self, Error>)
        ensures
            crate::error::res_view(r) == spec_function_length(vals_view(arguments@)),
    {
        if arguments.len() != 1 {
            return Err(
                Error::Value(
                    ValueError::NumberOfFunctionParamsNotMatching {
                        expected: 1,
                        found: arguments.len(),
                    },
                ),
            );
        }
        match &arguments[0] {
            Value::Null => Ok(Value::Null),
            Value::Str(s) => {
                let len = text::char_len(s);
                if (len as u64) > (i64::MAX as u64) {
                    Err(Error::Value(ValueError::IntegerOverflow))
                } else {
                    Ok(Value::I64(len as i64))
                }
            },
            _ => Err(Error::Value(ValueError::IncompatibleDataType)),
        }
    }

    /// CONCAT: the text arguments joined in order.
    #[verifier::loop_isolation(false)]
    pub fn function_concat(arguments: Vec<Self>) -> (r: Result<Self, Error>)
        ensures
            crate::error::res_view(r) == spec_function_concat(vals_view(arguments@)),
    {
        if arguments.len() < 1 {
            return Err(
                Error::Value(
                    ValueError::NumberOfFunctionParamsNotMatching { expected: 1, found: 0 },
                ),
            );
        }
        let mut out = String::new();
        let mut i: usize = 0;
        proof {
            assert(vals_view(arguments@).skip(0) =~= vals_view(arguments@));
            assert(out@ =~= Seq::<char>::empty());
        }
        while i < arguments.len()
            invariant
                i <= arguments.len(),
                spec_concat_from(out@, vals_view(arguments@).skip(i as int))
                    == spec_concat_from(Seq::empty(), vals_view(arguments@)),
            decreases arguments.len() - i,
        {
            match &arguments[i] {
                Value::Null => {
                    return Ok(Value::Null);
                },
                Value::Str(s) => {
                    out.append(s.as_str());
                },
                _ => {
                    return Err(Error::Value(ValueError::IncompatibleDataType));
                },
            }
            proof {
                assert(vals_view(arguments@).skip(i as int).drop_first() =~= vals_view(
                    arguments@,
                ).skip(i as int + 1));
            }
            i = i + 1;
        }
        proof {
            assert(vals_view(arguments@).skip(i as int) =~= Seq::<ValueV>::empty());
        }
        Ok(Value::Str(out))
    }

    /// REPLACE: the first text with every occurrence of the second replaced
    /// by the third.
    pub fn function_replace(arguments: Vec<Self>) -> (r: Result<Self, Error>)
        ensures
            crate::error::res_view(r) == spec_function_replace(vals_view(arguments@)),
    {
        if arguments.len() != 3 {
            return Err(
                Error::Value(
                    ValueError::NumberOfFunctionParamsNotMatching {
                        expected: 3,
                        found: arguments.len(),
                    },
                ),
            );
        }
        if matches!(&arguments[0], Value::Null) || matches!(&arguments[1], Value::Null)
            || matches!(&arguments[2], Value::Null) {
            return Ok(Value::Null);
        }
        match (&arguments[0], &arguments[1], &arguments[2]) {
            (Value::Str(s), Value::Str(from), Value::Str(to)) => Ok(
                Value::Str(text::replace_text(s.as_str(), from.as_str(), to.as_str())),
            ),
            _ => Err(Error::Value(ValueError::IncompatibleDataType)),
        }
    }

    /// NOW: the clock's current instant as whole epoch seconds.
    pub fn function_now(arguments: Vec<Self>) -> (r: Result<Self, Error>)
        ensures
            spec_function_now_ok(vals_view(arguments@), crate::error::res_view(r)),
    {
        if arguments.len() != 0 {
            return Err(
                Error::Value(
                    ValueError::NumberOfFunctionParamsNotMatching {
                        expected: 0,
                        found: arguments.len(),
                    },
                ),
            );
        }
        Ok(Value::I64(calendar::now_timestamp()))
    }

    /// YEAR: the calendar year of an epoch instant.
    pub fn function_year(arguments: Vec<Self>) -> (r: Result<Self, Error>)
        ensures
            crate::error::res_view(r) == spec_function_year(vals_view(arguments@)),
    {
        if arguments.len() != 1 {
            return Err(
                Error::Value(
                    ValueError::NumberOfFunctionParamsNotMatching {
                        expected: 1,
                        found: arguments.len(),
                    },
                ),
            );
        }
        match &arguments[0] {
            Value::Null => Ok(Value::Null),
            Value::I64(secs) => Ok(Value::I64(calendar::timestamp_year(*secs))),
            _ => Err(Error::Value(ValueError::IncompatibleDataType)),
        }
    }

    /// MONTH: the calendar month of an epoch instant.
    pub fn function_month(arguments: Vec<Self>) -> (r: Result<Self, Error>)
        ensures
            crate::error::res_view(r) == spec_function_month(vals_view(arguments@)),
    {
        if arguments.len() != 1 {
            return Err(
                Error::Value(
                    ValueError::NumberOfFunctionParamsNotMatching {
                        expected: 1,
                        found: arguments.len(),
                    },
                ),
            );
        }
        match &arguments[0] {
            Value::Null => Ok(Value::Null),
            Value::I64(secs) => Ok(Value::I64(calendar::timestamp_month(*secs))),
            _ => Err(Error::Value(ValueError::IncompatibleDataType)),
        }
    }

    /// DAY: the day of the month of an epoch instant.
    pub fn function_day(arguments: Vec<Self>) -> (r: Result<Self, Error>)
        ensures
            crate::error::res_view(r) == spec_function_day(vals_view(arguments@)),
    {
        if arguments.len() != 1 {
            return Err(
                Error::Value(
                    ValueError::NumberOfFunctionParamsNotMatching {
                        expected: 1,
                        found: arguments.len(),
                    },
                ),
            );
        }
        match &arguments[0] {
            Value::Null => Ok(Value::Null),
            Value::I64(secs) => Ok(Value::I64(calendar::timestamp_day(*secs))),
            _ => Err(Error::Value(ValueError::IncompatibleDataType)),
        }
    }

    /// HOUR: the hour of the day of an epoch instant.
    pub fn function_hour(arguments: Vec<Self>) -> (r: Result<Self, Error>)
        ensures
            crate::error::res_view(r) == spec_function_hour(vals_view(arguments@)),
    {
        if arguments.len() != 1 {
            return Err(
                Error::Value(
                    ValueError::NumberOfFunctionParamsNotMatching {
                        expected: 1,
                        found: arguments.len(),
                    },
                ),
            );
        }
        match &arguments[0] {
            Value::Null => Ok(Value::Null),
            Value::I64(secs) => Ok(Value::I64(calendar::timestamp_hour(*secs))),
            _ => Err(Error::Value(ValueError::IncompatibleDataType)),
        }
    }

    /// DATE_ADD: the instant shifted by an amount of a named calendar unit.
    pub fn function_date_add(arguments: Vec<Self>) -> (r: Result<Self, Error>)
        ensures
            crate::error::res_view(r) == spec_function_date_add(vals_view(arguments@)),
    {
        if arguments.len() != 3 {
            return Err(
                Error::Value(
                    ValueError::NumberOfFunctionParamsNotMatching {
                        expected: 3,
                        found: arguments.len(),
                    },
                ),
            );
        }
        if matches!(&arguments[0], Value::Null) || matches!(&arguments[1], Value::Null)
            || matches!(&arguments[2], Value::Null) {
            return Ok(Value::Null);
        }
        match (&arguments[0], &arguments[1], &arguments[2]) {
            (Value::I64(secs), Value::I64(amount), Value::Str(part)) => {
                if text::str_content_eq(part.as_str(), "YEAR") {
                    match amount.checked_mul(12) {
                        Some(months) => Value::month_shift(*secs, months),
                        None => Err(Error::Value(ValueError::IntegerOverflow)),
                    }
                } else if text::str_content_eq(part.as_str(), "MONTH") {
                    Value::month_shift(*secs, *amount)
                } else if text::str_content_eq(part.as_str(), "DAY") {
                    Value::second_shift(*secs, *amount, 86400)
                } else if text::str_content_eq(part.as_str(), "HOUR") {
                    Value::second_shift(*secs, *amount, 3600)
                } else if text::str_content_eq(part.as_str(), "MINUTE") {
                    Value::second_shift(*secs, *amount, 60)
                } else if text::str_content_eq(part.as_str(), "SECOND") {
                    Value::second_shift(*secs, *amount, 1)
                } else {
                    Err(Error::Value(ValueError::IncompatibleDataType))
                }
            },
            _ => Err(Error::Value(ValueError::IncompatibleDataType)),
        }
    }

    /// Shifts an instant by whole calendar months.
    fn month_shift(secs: i64, months: i64) -> (r: Result<Self, Error>)
        ensures
            crate::error::res_view(r) == spec_month_shift(secs, months),
    {
        if months >= 0 {
            if months > u32::MAX as i64 {
                Err(Error::Value(ValueError::InvalidDateTime))
            } else {
                match calendar::add_months_to_timestamp(secs, months as u32) {
                    Some(t) => Ok(Value::I64(t)),
                    None => Err(Error::Value(ValueError::InvalidDateTime)),
                }
            }
        } else {
            if months == i64::MIN || -months > u32::MAX as i64 {
                Err(Error::Value(ValueError::InvalidDateTime))
            } else {
                match calendar::sub_months_from_timestamp(secs, (-months) as u32) {
                    Some(t) => Ok(Value::I64(t)),
                    None => Err(Error::Value(ValueError::InvalidDateTime)),
                }
            }
        }
    }

    /// Shifts an instant by `amount` units of `unit_secs` whole seconds.
    fn second_shift(secs: i64, amount: i64, unit_secs: i64) -> (r: Result<Self, Error>)
        ensures
            crate::error::res_view(r) == spec_second_shift(secs, amount, unit_secs),
    {
        match amount.checked_mul(unit_secs) {
            Some(delta) => match secs.checked_add(delta) {
                Some(t) => Ok(Value::I64(t)),
                None => Err(Error::Value(ValueError::IntegerOverflow)),
            },
            None => Err(Error::Value(ValueError::IntegerOverflow)),
        }
    }

    /// DATE_FROM_PARTS: the midnight instant of a year, month and day.
    pub fn function_date_from_parts(arguments: Vec<Self>) -> (r: Result<Self, Error>)
        ensures
            crate::error::res_view(r) == spec_function_date_from_parts(vals_view(arguments@)),
    {
        if arguments.len() != 3 {
            return Err(
                Error::Value(
                    ValueError::NumberOfFunctionParamsNotMatching {
                        expected: 3,
                        found: arguments.len(),
                    },
                ),
            );
        }
        if matches!(&arguments[0], Value::Null) || matches!(&arguments[1], Value::Null)
            || matches!(&arguments[2], Value::Null) {
            return Ok(Value::Null);
        }
        match (&arguments[0], &arguments[1], &arguments[2]) {
            (Value::I64(y), Value::I64(m), Value::I64(d)) => {
                if *y < i32::MIN as i64 || *y > i32::MAX as i64 || *m < 0 || *m > u32::MAX as i64
                    || *d < 0 || *d > u32::MAX as i64 {
                    Err(Error::Value(ValueError::InvalidDateTime))
                } else {
                    match calendar::date_to_timestamp(*y as i32, *m as u32, *d as u32) {
                        Some(t) => Ok(Value::I64(t)),
                        None => Err(Error::Value(ValueError::InvalidDateTime)),
                    }
                }
            },
            _ => Err(Error::Value(ValueError::IncompatibleDataType)),
        }
    }

    /// ROUND: the value moved to the nearest integer, half away from zero.
    pub fn function_round(arguments: Vec<Self>) -> (r: Result<Self, Error>)
        ensures
            crate::error::res_view(r) == spec_function_round(vals_view(arguments@)),
    {
        if arguments.len() < 1 || arguments.len() > 2 {
            return Err(
                Error::Value(
                    ValueError::NumberOfFunctionParamsNotMatching {
                        expected: 1,
                        found: arguments.len(),
                    },
                ),
            );
        }
        let places = if arguments.len() == 2 {
            arguments[1].clone()
        } else {
            Value::I64(0)
        };
        if matches!(&arguments[0], Value::Null) || matches!(&places, Value::Null) {
            return Ok(Value::Null);
        }
        match (&arguments[0], &places) {
            (Value::I64(v), Value::I64(p)) => if *p >= 0 {
                Ok(Value::I64(*v))
            } else {
                Err(Error::Value(ValueError::IncompatibleDataType))
            },
            (Value::F64(bits), Value::I64(p)) => if *p == 0 {
                Ok(Value::F64(fbits::f64_round(*bits)))
            } else {
                Err(Error::Value(ValueError::IncompatibleDataType))
            },
            _ => Err(Error::Value(ValueError::IncompatibleDataType)),
        }
    }

    /// POW: an integer base raised to a non-negative integer exponent.
    #[verifier::loop_isolation(false)]
    pub fn function_pow(arguments: Vec<Self>) -> (r: Result<Self, Error>)
        ensures
            crate::error::res_view(r) == spec_function_pow(vals_view(arguments@)),
    {
        if arguments.len() != 2 {
            return Err(
                Error::Value(
                    ValueError::NumberOfFunctionParamsNotMatching {
                        expected: 2,
                        found: arguments.len(),
                    },
                ),
            );
        }
        if matches!(&arguments[0], Value::Null) || matches!(&arguments[1], Value::Null) {
            return Ok(Value::Null);
        }
        match (&arguments[0], &arguments[1]) {
            (Value::I64(base), Value::I64(exp)) => {
                if *exp < 0 {
                    return Err(Error::Value(ValueError::IncompatibleDataType));
                }
                let mut acc: i64 = 1;
                let mut i: i64 = 0;
                while i < *exp
                    invariant
                        0 <= i <= *exp,
                        spec_pow_i64(*base, i as int) == Ok::<i64, ErrorV>(acc),
                    decreases *exp - i,
                {
                    match acc.checked_mul(*base) {
                        Some(w) => {
                            acc = w;
                        },
                        None => {
                            proof {
                                lemma_pow_err_persists(*base, i as int + 1, *exp as int);
                            }
                            return Err(Error::Value(ValueError::IntegerOverflow));
                        },
                    }
                    i = i + 1;
                }
                Ok(Value::I64(acc))
            },
            _ => Err(Error::Value(ValueError::IncompatibleDataType)),
        }
    }
}

/// What a function kind yields on a list of argument values.
pub open spec fn spec_apply_function(kind: FunctionKind, args: Seq<ValueV>) -> Result<
    ValueV,
    ErrorV,
> {
    match kind {
        FunctionKind::IfNull => spec_function_if_null(args),
        FunctionKind::NullIf => spec_function_null_if(args),
        FunctionKind::Iif => spec_function_iif(args),
        FunctionKind::ToLowercase => spec_function_to_lowercase(args),
        FunctionKind::ToUppercase => spec_function_to_uppercase(args),
        FunctionKind::Left => spec_function_left(args),
        FunctionKind::Right => spec_function_right(args),
        FunctionKind::Length => spec_function_length(args),
        FunctionKind::Concat => spec_function_concat(args),
        FunctionKind::Replace => spec_function_replace(args),
        FunctionKind::Year => spec_function_year(args),
        FunctionKind::Month => spec_function_month(args),
        FunctionKind::Day => spec_function_day(args),
        FunctionKind::Hour => spec_function_hour(args),
        FunctionKind::DateAdd => spec_function_date_add(args),
        FunctionKind::DateFromParts => spec_function_date_from_parts(args),
        FunctionKind::Round => spec_function_round(args),
        FunctionKind::Pow => spec_function_pow(args),
        FunctionKind::Convert => spec_function_convert(args),
        FunctionKind::TryConvert => spec_function_try_convert(args),
    }
}

/// Once one checked multiplication in the POW chain overflows, every longer
/// chain overflows too.
proof fn lemma_pow_err_persists(base: i64, k: int, e: int)
    requires
        k <= e,
        spec_pow_i64(base, k) == Err::<i64, ErrorV>(ErrorV::Value(ValueError::IntegerOverflow)),
    ensures
        spec_pow_i64(base, e) == Err::<i64, ErrorV>(ErrorV::Value(ValueError::IntegerOverflow)),
    decreases e - k,
{
    if k < e {
        lemma_pow_err_persists(base, k + 1, e);
    }
}

} // verus!
