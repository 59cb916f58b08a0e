//! Rows, and the assembly of a row out of parsed column and value lists.
//!
//! A row is an ordered sequence of values, one per column position; the
//! position is the only identity a row carries. Assembly resolves, for each
//! declared column, an explicit value (positional, or matched by name when
//! columns are stated), else the column's default, else it fails; an
//! auto-incremented column that got no value (or an explicit null) takes a
//! null placeholder for the storage layer's counter to fill. Every assembled
//! value is checked against the column's declared type and nullability.

use vstd::prelude::*;

use crate::error::{Error, ErrorV, RecipeError, RecipeErrorV, RowError, RowErrorV, ValueError};
use crate::recipe::{spec_as_solution, spec_reduce, Ingredient, Recipe, RecipeV, SimplifyBy};
use crate::value::{spec_type_ok, DataType, Value, ValueV};

verus! {

/// One declared column: its name, type, nullability, default expression,
/// and whether the storage layer auto-increments it.
pub struct ColumnDefinition {
    pub name: String,
    pub data_type: DataType,
    pub nullable: bool,
    pub default: Option<Recipe>,
    pub auto_increment: bool,
}

/// The image of a declared column.
pub struct ColumnDefV {
    pub name: Seq<char>,
    pub data_type: DataType,
    pub nullable: bool,
    pub default: Option<RecipeV>,
    pub auto_increment: bool,
}

impl View for ColumnDefinition {
    type V = ColumnDefV;

    open spec fn view(&self) -> ColumnDefV {
        ColumnDefV {
            name: self.name@,
            data_type: self.data_type,
            nullable: self.nullable,
            default: match &self.default {
                Some(d) => Some(d@),
                None => None,
            },
            auto_increment: self.auto_increment,
        }
    }
}

/// The images of a declared-column list.
pub open spec fn defs_view(defs: Seq<ColumnDefinition>) -> Seq<ColumnDefV> {
    defs.map_values(|d: ColumnDefinition| d@)
}

/// The images of a name list.
pub open spec fn names_view(names: Seq<String>) -> Seq<Seq<char>> {
    names.map_values(|s: String| s@)
}

/// An ordered sequence of values, one per column position.
#[derive(Debug)]
pub struct Row(pub Vec<Value>);

impl View for Row {
    type V = Seq<ValueV>;

    open spec fn view(&self) -> Seq<ValueV> {
        crate::functions::vals_view(self.0@)
    }
}

impl Clone for Row {
    #[verifier::loop_isolation(false)]
    fn clone(&self) -> (r: Self)
        ensures
            r@ == self@,
    {
        let mut out: Vec<Value> = Vec::new();
        let mut i: usize = 0;
        while i < self.0.len()
            invariant
                i <= self.0@.len(),
                out@.len() == i,
                forall|j: int| 0 <= j < i ==> out@[j]@ == self.0@[j]@,
            decreases self.0@.len() - i,
        {
            out.push(self.0[i].clone());
            i = i + 1;
        }
        proof {
            assert(crate::functions::vals_view(out@) =~= self@);
        }
        Row(out)
    }
}

/// The first position of `name` in `names`.
pub open spec fn spec_position(names: Seq<Seq<char>>, name: Seq<char>) -> Option<int>
    decreases names.len(),
{
    if names.len() == 0 {
        None
    } else if names[0] == name {
        Some(0)
    } else {
        match spec_position(names.drop_first(), name) {
            Some(p) => Some(p + 1),
            None => None,
        }
    }
}

/// What assembling the cell of declared column `i` yields. The stated
/// position is `i` itself when no columns are stated, else the column
/// name's position among the stated names; a stated position past the value
/// list is a missing value; an unstated column takes its default, and
/// without one the column is missing. An auto-incremented column that got
/// no position or an explicit literal null takes the null placeholder. The
/// chosen expression must fold to a single value of the column's type,
/// null only if the column is nullable.
pub open spec fn spec_row_cell(
    def: ColumnDefV,
    columns: Seq<Seq<char>>,
    values: Seq<RecipeV>,
    i: int,
    auto_increment_enabled: bool,
) -> Result<ValueV, ErrorV> {
    let pos = if columns.len() == 0 {
        Some(i)
    } else {
        spec_position(columns, def.name)
    };
    if auto_increment_enabled && def.auto_increment && (pos is None || (pos matches Some(p) && 0
        <= p < values.len() && values[p] == RecipeV::Value(ValueV::Null))) {
        Ok(ValueV::Null)
    } else {
        match pos {
            Some(p) => if 0 <= p < values.len() {
                spec_eval_cell(def, values[p])
            } else {
                Err(ErrorV::Row(RowErrorV::LackOfRequiredValue(def.name)))
            },
            None => match def.default {
                Some(d) => spec_eval_cell(def, d),
                None => Err(ErrorV::Row(RowErrorV::LackOfRequiredColumn(def.name))),
            },
        }
    }
}

/// What evaluating one cell expression yields: it must fold to a single
/// value, of the column's declared type, null only if the column is
/// nullable.
pub open spec fn spec_eval_cell(def: ColumnDefV, expr: RecipeV) -> Result<ValueV, ErrorV> {
    match spec_reduce(expr, None) {
        Ok(rr) => match spec_as_solution(rr) {
            Some(v) => if !spec_type_ok(v, def.data_type) {
                Err(ErrorV::Value(ValueError::IncompatibleDataType))
            } else if v is Null && !def.nullable {
                Err(ErrorV::Value(ValueError::NullValueOnNotNullField))
            } else {
                Ok(v)
            },
            None => Err(ErrorV::Recipe(RecipeErrorV::MissingComponents)),
        },
        Err(e) => Err(e),
    }
}

/// The cells of the declared columns from position `i` on; the first error
/// wins.
pub open spec fn spec_row_cells(
    defs: Seq<ColumnDefV>,
    columns: Seq<Seq<char>>,
    values: Seq<RecipeV>,
    i: int,
    auto_increment_enabled: bool,
) -> Result<Seq<ValueV>, ErrorV>
    decreases defs.len() - i,
{
    if i < 0 || i >= defs.len() {
        Ok(Seq::empty())
    } else {
        match spec_row_cell(defs[i], columns, values, i, auto_increment_enabled) {
            Ok(v) => match spec_row_cells(defs, columns, values, i + 1, auto_increment_enabled) {
                Ok(t) => Ok(seq![v] + t),
                Err(e) => Err(e),
            },
            Err(e) => Err(e),
        }
    }
}

/// What assembling a whole row yields: more values than declared columns is
/// its own error, and otherwise the cells in declaration order.
pub open spec fn spec_row_new(
    defs: Seq<ColumnDefV>,
    columns: Seq<Seq<char>>,
    values: Seq<RecipeV>,
    auto_increment_enabled: bool,
) -> Result<Seq<ValueV>, ErrorV> {
    if values.len() > defs.len() {
        Err(ErrorV::Row(RowErrorV::TooManyValues))
    } else {
        spec_row_cells(defs, columns, values, 0, auto_increment_enabled)
    }
}

/// What validating a row against the declared columns yields: each value
/// the row has at a declared position must fit the column's type, and be
/// null only if the column is nullable; the first violation wins.
pub open spec fn spec_validate_row(row: Seq<ValueV>, defs: Seq<ColumnDefV>, i: int) -> Result<
    (),
    ErrorV,
>
    decreases defs.len() - i,
{
    if i < 0 || i >= defs.len() {
        Ok(())
    } else if 0 <= i < row.len() {
        if !spec_type_ok(row[i], defs[i].data_type) {
            Err(ErrorV::Value(ValueError::IncompatibleDataType))
        } else if row[i] is Null && !defs[i].nullable {
            Err(ErrorV::Value(ValueError::NullValueOnNotNullField))
        } else {
            spec_validate_row(row, defs, i + 1)
        }
    } else {
        spec_validate_row(row, defs, i + 1)
    }
}

impl Row {
    /// The value at a column position.
    pub fn get_value(&self, index: usize) -> (r: Option<&Value>)
        ensures
            match r {
                Some(v) => index < self@.len() && v@ == self@[index as int],
                None => index >= self@.len(),
            },
    {
        if index < self.0.len() {
            Some(&self.0[index])
        } else {
            None
        }
    }

    /// The first value of the row; a row with no cells is its own error.
    pub fn take_first_value(self) -> (r: Result<Value, Error>)
        ensures
            match r {
                Ok(v) => self@.len() > 0 && v@ == self@[0],
                Err(e) => self@.len() == 0 && e@ == ErrorV::Row(RowErrorV::ConflictOnEmptyRow),
            },
    {
        if self.0.len() == 0 {
            Err(Error::Row(RowError::ConflictOnEmptyRow))
        } else {
            Ok(self.0[0].clone())
        }
    }

    /// Assembles a row: for each declared column, the stated value (by
    /// position, or by name when columns are stated), else the column's
    /// default, else an error; an auto-incremented column that got no value
    /// or an explicit null takes a null placeholder. Each value must fold to
    /// a single value of the column's declared type, null only if the
    /// column is nullable. More values than declared columns is an error.
    #[verifier::loop_isolation(false)]
    pub fn new(
        column_defs: &Vec<ColumnDefinition>,
        columns: &Vec<String>,
        values: &Vec<Recipe>,
        auto_increment_enabled: bool,
    ) -> (r: Result<Self, Error>)
        ensures
            ({
                let spec = spec_row_new(
                    defs_view(column_defs@),
                    names_view(columns@),
                    crate::meta::recipes_view(values@),
                    auto_increment_enabled,
                );
                match r {
                    Ok(row) => spec == Ok::<Seq<ValueV>, ErrorV>(row@),
                    Err(e) => spec == Err::<Seq<ValueV>, ErrorV>(e@),
                }
            }),
    {
        let ghost defsv = defs_view(column_defs@);
        let ghost colsv = names_view(columns@);
        let ghost valsv = crate::meta::recipes_view(values@);
        if values.len() > column_defs.len() {
            return Err(Error::Row(RowError::TooManyValues));
        }
        let mut out: Vec<Value> = Vec::new();
        let mut i: usize = 0;
        while i < column_defs.len()
            invariant
                i <= column_defs@.len(),
                out@.len() == i,
                defsv == defs_view(column_defs@),
                colsv == names_view(columns@),
                valsv == crate::meta::recipes_view(values@),
                spec_row_cells(defsv, colsv, valsv, 0, auto_increment_enabled) == match
                    spec_row_cells(defsv, colsv, valsv, i as int, auto_increment_enabled) {
                    Ok(t) => Ok::<Seq<ValueV>, ErrorV>(crate::functions::vals_view(out@) + t),
                    Err(e) => Err::<Seq<ValueV>, ErrorV>(e),
                },
            decreases column_defs@.len() - i,
        {
            let def = &column_defs[i];
            match Row::build_cell(def, columns, values, i, auto_increment_enabled) {
                Ok(v) => {
                    let ghost vv = v@;
                    let ghost old_out = crate::functions::vals_view(out@);
                    out.push(v);
                    proof {
                        assert(crate::functions::vals_view(out@) =~= old_out + seq![vv]);
                        match spec_row_cells(
                            defsv,
                            colsv,
                            valsv,
                            i as int + 1,
                            auto_increment_enabled,
                        ) {
                            Ok(t) => {
                                assert(old_out + (seq![vv] + t)
                                    =~= crate::functions::vals_view(out@) + t);
                            },
                            Err(_) => {},
                        }
                    }
                },
                Err(e) => {
                    return Err(e);
                },
            }
            i = i + 1;
        }
        proof {
            assert(crate::functions::vals_view(out@) + Seq::<ValueV>::empty()
                =~= crate::functions::vals_view(out@));
        }
        Ok(Row(out))
    }

    /// Assembles the cell of declared column `i`.
    #[verifier::loop_isolation(false)]
    fn build_cell(
        def: &ColumnDefinition,
        columns: &Vec<String>,
        values: &Vec<Recipe>,
        i: usize,
        auto_increment_enabled: bool,
    ) -> (r: Result<Value, Error>)
        ensures
            crate::error::res_view(r) == spec_row_cell(
                def@,
                names_view(columns@),
                crate::meta::recipes_view(values@),
                i as int,
                auto_increment_enabled,
            ),
    {
        let ghost colsv = names_view(columns@);
        let ghost valsv = crate::meta::recipes_view(values@);
        let pos: Option<usize> = if columns.len() == 0 {
            Some(i)
        } else {
            let mut p: usize = 0;
            let mut found: Option<usize> = None;
            while p < columns.len() && found.is_none()
                invariant
                    p <= columns@.len(),
                    colsv == names_view(columns@),
                    match found {
                        Some(f) => f < p && colsv[f as int] == def@.name && (forall|j: int|
                            0 <= j < f ==> colsv[j] != def@.name),
                        None => forall|j: int| 0 <= j < p ==> colsv[j] != def@.name,
                    },
                decreases columns@.len() - p,
            {
                if crate::text::str_content_eq(columns[p].as_str(), def.name.as_str()) {
                    found = Some(p);
                }
                p = p + 1;
            }
            proof {
                lemma_spec_position(colsv, def@.name);
            }
            found
        };
        let ghost specpos: Option<int> = if colsv.len() == 0 {
            Some(i as int)
        } else {
            spec_position(colsv, def@.name)
        };
        proof {
            if colsv.len() != 0 {
                lemma_spec_position(colsv, def@.name);
            }
            match pos {
                Some(f) => {
                    assert(specpos == Some(f as int));
                },
                None => {
                    assert(specpos is None);
                },
            }
        }
        let is_explicit_null = match pos {
            Some(p) => p < values.len() && matches!(
                &values[p],
                Recipe::Ingredient(Ingredient::Value(Value::Null)),
            ),
            None => true,
        };
        if auto_increment_enabled && def.auto_increment && is_explicit_null {
            return Ok(Value::Null);
        }
        match pos {
            Some(p) => if p < values.len() {
                Row::eval_cell(def, &values[p])
            } else {
                Err(Error::Row(RowError::LackOfRequiredValue(def.name.clone())))
            },
            None => match &def.default {
                Some(d) => Row::eval_cell(def, d),
                None => Err(Error::Row(RowError::LackOfRequiredColumn(def.name.clone()))),
            },
        }
    }

    /// Folds one cell expression and checks it against the column.
    fn eval_cell(def: &ColumnDefinition, expr: &Recipe) -> (r: Result<Value, Error>)
        ensures
            crate::error::res_view(r) == spec_eval_cell(def@, expr@),
    {
        let folded = match expr.clone().simplify(&SimplifyBy::Basic) {
            Ok(f) => f,
            Err(e) => {
                return Err(e);
            },
        };
        let v = folded.confirm_or_err(Error::Recipe(RecipeError::MissingComponents))?;
        match v.validate_type(&def.data_type) {
            Ok(_) => {},
            Err(e) => {
                return Err(e);
            },
        }
        if matches!(&v, Value::Null) && !def.nullable {
            return Err(Error::Value(ValueError::NullValueOnNotNullField));
        }
        Ok(v)
    }

    /// Checks every value the row holds against its column's declared type
    /// and nullability.
    #[verifier::loop_isolation(false)]
    pub fn validate(&self, column_defs: &Vec<ColumnDefinition>) -> (r: Result<(), Error>)
        ensures
            crate::error::res_view(r) == spec_validate_row(self@, defs_view(column_defs@), 0),
    {
        let ghost defsv = defs_view(column_defs@);
        let mut i: usize = 0;
        while i < column_defs.len()
            invariant
                i <= column_defs@.len(),
                defsv == defs_view(column_defs@),
                spec_validate_row(self@, defsv, 0) == spec_validate_row(
                    self@,
                    defsv,
                    i as int,
                ),
            decreases column_defs@.len() - i,
        {
            if i < self.0.len() {
                let v = &self.0[i];
                match v.validate_type(&column_defs[i].data_type) {
                    Ok(_) => {},
                    Err(e) => {
                        return Err(e);
                    },
                }
                if matches!(v, Value::Null) && !column_defs[i].nullable {
                    return Err(Error::Value(ValueError::NullValueOnNotNullField));
                }
            }
            i = i + 1;
        }
        Ok(())
    }
}

/// `spec_position` finds the first position holding the name, and finds one
/// exactly when some position holds it.
pub proof fn lemma_spec_position(names: Seq<Seq<char>>, name: Seq<char>)
    ensures
        match spec_position(names, name) {
            Some(p) => 0 <= p < names.len() && names[p] == name && (forall|j: int|
                0 <= j < p ==> names[j] != name),
            None => forall|j: int| 0 <= j < names.len() ==> names[j] != name,
        },
    decreases names.len(),
{
    if names.len() > 0 && names[0] != name {
        let rest = names.drop_first();
        lemma_spec_position(rest, name);
        match spec_position(rest, name) {
            Some(p) => {
                assert(names[p + 1] == rest[p]);
                assert forall|j: int| 0 <= j < p + 1 implies names[j] != name by {
                    if j >= 1 {
                        assert(names[j] == rest[j - 1]);
                    }
                }
            },
            None => {
                assert forall|j: int| 0 <= j < names.len() implies names[j] != name by {
                    if j >= 1 {
                        assert(names[j] == rest[j - 1]);
                    }
                }
            },
        }
    }
}

} // verus!
