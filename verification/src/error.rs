//! The error kinds the engine surfaces, and their mathematical images.
//!
//! Evaluation errors (`ValueError`) carry no heap data, so contracts name
//! them directly. Errors that carry a column or table name are abstracted by
//! a view that holds the name as a character sequence.

use vstd::prelude::*;

verus! {

/// Errors from evaluating values and scalar functions.
#[derive(PartialEq, Eq, Structural, Clone, Copy, Debug)]
pub enum ValueError {
    /// Wrong arity handed to a scalar function.
    NumberOfFunctionParamsNotMatching { expected: usize, found: usize },
    /// A value does not fit a column's declared type, or an operation was
    /// applied to tags it is not defined for.
    IncompatibleDataType,
    /// Null stored into a column declared NOT NULL.
    NullValueOnNotNullField,
    /// CONVERT to a target this engine does not support.
    UnimplementedConvert,
    /// Integer arithmetic left the 64-bit range.
    IntegerOverflow,
    /// Integer division or remainder by zero.
    DivisionByZero,
    /// A date or timestamp outside the supported calendar range, or with
    /// parts that name no real date.
    InvalidDateTime,
}

/// Errors from binding and simplifying expression trees.
#[derive(Debug)]
pub enum RecipeError {
    /// A referenced column identity matched no candidate column.
    MissingColumn(Vec<String>),
    /// A referenced column identity matched more than one candidate column.
    AmbiguousColumn(Vec<String>),
    /// A tree that should have been fully resolved still has unresolved
    /// parts: a planner invariant was violated.
    MissingComponents,
    /// An aggregate argument failed to resolve during accumulation.
    UnreachableAggregateFailed,
    /// A non-aggregate method stood where an aggregate was expected.
    UnreachableNotAggregate,
    /// A plain ingredient stood where an aggregate method was expected.
    UnreachableNotMethod,
}

/// The image of a `RecipeError`, with column references as character
/// sequences.
pub enum RecipeErrorV {
    MissingColumn(Seq<Seq<char>>),
    AmbiguousColumn(Seq<Seq<char>>),
    MissingComponents,
    UnreachableAggregateFailed,
    UnreachableNotAggregate,
    UnreachableNotMethod,
}

/// The character sequences of a list of name segments.
pub open spec fn segments_view(name: Seq<String>) -> Seq<Seq<char>> {
    name.map_values(|s: String| s@)
}

impl View for RecipeError {
    type V = RecipeErrorV;

    open spec fn view(&self) -> RecipeErrorV {
        match self {
            RecipeError::MissingColumn(name) => RecipeErrorV::MissingColumn(segments_view(name@)),
            RecipeError::AmbiguousColumn(name) => RecipeErrorV::AmbiguousColumn(
                segments_view(name@),
            ),
            RecipeError::MissingComponents => RecipeErrorV::MissingComponents,
            RecipeError::UnreachableAggregateFailed => RecipeErrorV::UnreachableAggregateFailed,
            RecipeError::UnreachableNotAggregate => RecipeErrorV::UnreachableNotAggregate,
            RecipeError::UnreachableNotMethod => RecipeErrorV::UnreachableNotMethod,
        }
    }
}

/// Errors from assembling a row out of parsed column and value lists.
#[derive(Debug)]
pub enum RowError {
    /// A target column got neither a value nor a default.
    LackOfRequiredColumn(String),
    /// A named column was listed but its value is missing.
    LackOfRequiredValue(String),
    /// More values were supplied than the table declares columns.
    TooManyValues,
    /// A value was asked of a row with no cells.
    ConflictOnEmptyRow,
}

/// The image of a `RowError`.
pub enum RowErrorV {
    LackOfRequiredColumn(Seq<char>),
    LackOfRequiredValue(Seq<char>),
    TooManyValues,
    ConflictOnEmptyRow,
}

impl View for RowError {
    type V = RowErrorV;

    open spec fn view(&self) -> RowErrorV {
        match self {
            RowError::LackOfRequiredColumn(name) => RowErrorV::LackOfRequiredColumn(name@),
            RowError::LackOfRequiredValue(name) => RowErrorV::LackOfRequiredValue(name@),
            RowError::TooManyValues => RowErrorV::TooManyValues,
            RowError::ConflictOnEmptyRow => RowErrorV::ConflictOnEmptyRow,
        }
    }
}

/// Errors from validating rows on the insert path.
#[derive(Debug)]
pub enum InsertError {
    /// A stated column name is not declared by the table.
    ColumnNotFound(String),
    /// A row's value count differs from the stated column count.
    WrongNumberOfValues,
    /// A column with no stated value has no default and is not nullable.
    MissingValue,
    /// A column default failed to resolve to a single value.
    BadDefault,
}

/// The image of an `InsertError`.
pub enum InsertErrorV {
    ColumnNotFound(Seq<char>),
    WrongNumberOfValues,
    MissingValue,
    BadDefault,
}

impl View for InsertError {
    type V = InsertErrorV;

    open spec fn view(&self) -> InsertErrorV {
        match self {
            InsertError::ColumnNotFound(name) => InsertErrorV::ColumnNotFound(name@),
            InsertError::WrongNumberOfValues => InsertErrorV::WrongNumberOfValues,
            InsertError::MissingValue => InsertErrorV::MissingValue,
            InsertError::BadDefault => InsertErrorV::BadDefault,
        }
    }
}

/// Errors from altering a table's schema.
#[derive(Debug)]
pub enum AlterTableError {
    TableNotFound(String),
    RenamingColumnNotFound,
    DefaultValueRequired(String),
    AddingColumnAlreadyExists(String),
    DroppingColumnNotFound(String),
}

/// The image of an `AlterTableError`.
pub enum AlterTableErrorV {
    TableNotFound(Seq<char>),
    RenamingColumnNotFound,
    DefaultValueRequired(Seq<char>),
    AddingColumnAlreadyExists(Seq<char>),
    DroppingColumnNotFound(Seq<char>),
}

impl View for AlterTableError {
    type V = AlterTableErrorV;

    open spec fn view(&self) -> AlterTableErrorV {
        match self {
            AlterTableError::TableNotFound(name) => AlterTableErrorV::TableNotFound(name@),
            AlterTableError::RenamingColumnNotFound => AlterTableErrorV::RenamingColumnNotFound,
            AlterTableError::DefaultValueRequired(name) => AlterTableErrorV::DefaultValueRequired(
                name@,
            ),
            AlterTableError::AddingColumnAlreadyExists(name) => {
                AlterTableErrorV::AddingColumnAlreadyExists(name@)
            },
            AlterTableError::DroppingColumnNotFound(name) => {
                AlterTableErrorV::DroppingColumnNotFound(name@)
            },
        }
    }
}

/// Any error the engine surfaces.
#[derive(Debug)]
pub enum Error {
    Value(ValueError),
    Recipe(RecipeError),
    Row(RowError),
    Insert(InsertError),
    AlterTable(AlterTableError),
}

/// The image of an `Error`.
pub enum ErrorV {
    Value(ValueError),
    Recipe(RecipeErrorV),
    Row(RowErrorV),
    Insert(InsertErrorV),
    AlterTable(AlterTableErrorV),
}

impl View for Error {
    type V = ErrorV;

    open spec fn view(&self) -> ErrorV {
        match self {
            Error::Value(e) => ErrorV::Value(*e),
            Error::Recipe(e) => ErrorV::Recipe(e@),
            Error::Row(e) => ErrorV::Row(e@),
            Error::Insert(e) => ErrorV::Insert(e@),
            Error::AlterTable(e) => ErrorV::AlterTable(e@),
        }
    }
}

/// The image of a `Result` whose success type has a view.
pub open spec fn res_view<T: View>(r: Result<T, Error>) -> Result<T::V, ErrorV> {
    match r {
        Ok(v) => Ok(v@),
        Err(e) => Err(e@),
    }
}

} // verus!
