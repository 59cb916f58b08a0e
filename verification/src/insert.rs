//! Row validation on the insert path: mapping stated column names to
//! declared positions, and checking or completing each incoming row.
//!
//! Unlike row assembly, this path takes rows whose values are already
//! evaluated: each row must have exactly as many values as columns were
//! stated, each stated value must fit its column's nullability and type,
//! and each unstated column falls back to its default (or null when it is
//! nullable), or fails.

use vstd::prelude::*;

use crate::error::{Error, ErrorV, InsertError, InsertErrorV, ValueError};
use crate::functions::vals_view;
use crate::recipe::{spec_as_solution, spec_reduce, Recipe, RecipeV, SimplifyBy};
use crate::row::{defs_view, names_view, spec_position, ColumnDefV, ColumnDefinition};
use crate::value::{spec_type_ok, Value, ValueV};

verus! {

/// The first position of `target` in a position list.
pub open spec fn spec_index_position(stated: Seq<int>, target: int) -> Option<int>
    decreases stated.len(),
{
    if stated.len() == 0 {
        None
    } else if stated[0] == target {
        Some(0)
    } else {
        match spec_index_position(stated.drop_first(), target) {
            Some(p) => Some(p + 1),
            None => None,
        }
    }
}

/// What mapping stated column names to declared positions yields: no stated
/// names means every declared position in order; otherwise each stated name
/// becomes the first declared position bearing it, and a name no column
/// bears is its own error.
pub open spec fn spec_columns_to_positions(
    def_names: Seq<Seq<char>>,
    columns: Seq<Seq<char>>,
) -> Result<Seq<int>, ErrorV>
    decreases columns.len(),
{
    if columns.len() == 0 {
        Ok(Seq::new(def_names.len(), |i: int| i))
    } else {
        match spec_position(def_names, columns[0]) {
            Some(p) => match spec_columns_to_positions_tail(def_names, columns.drop_first()) {
                Ok(t) => Ok(seq![p] + t),
                Err(e) => Err(e),
            },
            None => Err(ErrorV::Insert(InsertErrorV::ColumnNotFound(columns[0]))),
        }
    }
}

/// The positions of the stated names after the first.
pub open spec fn spec_columns_to_positions_tail(
    def_names: Seq<Seq<char>>,
    columns: Seq<Seq<char>>,
) -> Result<Seq<int>, ErrorV>
    decreases columns.len(),
{
    if columns.len() == 0 {
        Ok(Seq::empty())
    } else {
        match spec_position(def_names, columns[0]) {
            Some(p) => match spec_columns_to_positions_tail(def_names, columns.drop_first()) {
                Ok(t) => Ok(seq![p] + t),
                Err(e) => Err(e),
            },
            None => Err(ErrorV::Insert(InsertErrorV::ColumnNotFound(columns[0]))),
        }
    }
}

/// The declared names of a column list.
pub open spec fn def_names_view(defs: Seq<ColumnDefV>) -> Seq<Seq<char>> {
    defs.map_values(|d: ColumnDefV| d.name)
}

/// Maps the stated column names of an insert to declared column positions:
/// no stated names means every declared position in order; otherwise each
/// stated name becomes the first declared position bearing it, and a name
/// no column bears is an error naming it.
#[verifier::loop_isolation(false)]
pub fn columns_to_positions(column_defs: &Vec<ColumnDefinition>, columns: &Vec<String>) -> (r:
    Result<Vec<usize>, Error>)
    ensures
        ({
            let spec = spec_columns_to_positions(
                def_names_view(defs_view(column_defs@)),
                names_view(columns@),
            );
            match r {
                Ok(out) => spec == Ok::<Seq<int>, ErrorV>(
                    out@.map_values(|u: usize| u as int),
                ),
                Err(e) => spec == Err::<Seq<int>, ErrorV>(e@),
            }
        }),
{
    let ghost namesv = def_names_view(defs_view(column_defs@));
    let ghost colsv = names_view(columns@);
    let mut out: Vec<usize> = Vec::new();
    if columns.len() == 0 {
        let mut i: usize = 0;
        while i < column_defs.len()
            invariant
                i <= column_defs@.len(),
                out@.len() == i,
                forall|j: int| 0 <= j < i ==> out@[j] == j,
            decreases column_defs@.len() - i,
        {
            out.push(i);
            i = i + 1;
        }
        proof {
            assert(out@.map_values(|u: usize| u as int) =~= Seq::new(
                namesv.len(),
                |i: int| i,
            ));
        }
        return Ok(out);
    }
    let mut c: usize = 0;
    proof {
        assert(colsv.skip(0) =~= colsv);
        lemma_head_tail(namesv, colsv);
    }
    while c < columns.len()
        invariant
            c <= columns@.len(),
            columns@.len() > 0,
            namesv == def_names_view(defs_view(column_defs@)),
            colsv == names_view(columns@),
            out@.len() == c,
            spec_columns_to_positions(namesv, colsv) == match spec_columns_to_positions_tail(
                namesv,
                colsv.skip(c as int),
            ) {
                Ok(t) => Ok::<Seq<int>, ErrorV>(out@.map_values(|u: usize| u as int) + t),
                Err(e) => Err::<Seq<int>, ErrorV>(e),
            },
        decreases columns@.len() - c,
    {
        proof {
            assert(colsv.skip(c as int)[0] == colsv[c as int]);
        }
        let mut p: usize = 0;
        let mut found: Option<usize> = None;
        while p < column_defs.len() && found.is_none()
            invariant
                p <= column_defs@.len(),
                c < columns@.len(),
                namesv == def_names_view(defs_view(column_defs@)),
                colsv == names_view(columns@),
                match found {
                    Some(f) => f < p && namesv[f as int] == colsv[c as int] && (forall|j: int|
                        0 <= j < f ==> namesv[j] != colsv[c as int]),
                    None => forall|j: int| 0 <= j < p ==> namesv[j] != colsv[c as int],
                },
            decreases column_defs@.len() - p,
        {
            if crate::text::str_content_eq(
                column_defs[p].name.as_str(),
                columns[c].as_str(),
            ) {
                found = Some(p);
            }
            p = p + 1;
        }
        proof {
            crate::row::lemma_spec_position(namesv, colsv[c as int]);
        }
        match found {
            Some(f) => {
                let ghost old_out = out@.map_values(|u: usize| u as int);
                out.push(f);
                proof {
                    assert(spec_position(namesv, colsv[c as int]) == Some(f as int));
                    assert(out@.map_values(|u: usize| u as int) =~= old_out + seq![f as int]);
                    assert(colsv.skip(c as int).drop_first() =~= colsv.skip(c as int + 1));
                    match spec_columns_to_positions_tail(namesv, colsv.skip(c as int + 1)) {
                        Ok(t) => {
                            assert(old_out + (seq![f as int] + t) =~= out@.map_values(
                                |u: usize| u as int,
                            ) + t);
                        },
                        Err(_) => {},
                    }
                }
            },
            None => {
                proof {
                    assert(spec_position(namesv, colsv[c as int]) is None);
                }
                let name = columns[c].clone();
                return Err(Error::Insert(InsertError::ColumnNotFound(name)));
            },
        }
        c = c + 1;
    }
    proof {
        assert(colsv.skip(c as int) =~= Seq::<Seq<char>>::empty());
        assert(out@.map_values(|u: usize| u as int) + Seq::<int>::empty() =~= out@.map_values(
            |u: usize| u as int,
        ));
    }
    Ok(out)
}

/// The first step of the position mapping agrees with the tail form.
proof fn lemma_head_tail(def_names: Seq<Seq<char>>, columns: Seq<Seq<char>>)
    requires
        columns.len() > 0,
    ensures
        spec_columns_to_positions(def_names, columns) == spec_columns_to_positions_tail(
            def_names,
            columns,
        ),
{
}

/// What completing and checking one cell of one row yields: a stated column
/// takes the row's value at its stated slot, which must satisfy the
/// column's nullability (widened by auto-increment when that is enabled)
/// and its declared type; an unstated column takes its default — or null
/// when it is nullable — folded to a single value, and a column with
/// neither is missing.
pub open spec fn spec_insert_cell(
    def: ColumnDefV,
    stated: Seq<int>,
    row: Seq<ValueV>,
    ci: int,
    auto_increment_enabled: bool,
) -> Result<ValueV, ErrorV> {
    let nullable = def.nullable || (auto_increment_enabled && def.auto_increment);
    match spec_index_position(stated, ci) {
        Some(p) => if 0 <= p < row.len() {
            let v = row[p];
            if v is Null && !nullable {
                Err(ErrorV::Value(ValueError::NullValueOnNotNullField))
            } else if !spec_type_ok(v, def.data_type) {
                Err(ErrorV::Value(ValueError::IncompatibleDataType))
            } else {
                Ok(v)
            }
        } else {
            spec_insert_fallback(def, nullable)
        },
        None => spec_insert_fallback(def, nullable),
    }
}

/// What an unstated column falls back to: its default — or null when the
/// column is nullable — folded to a single value; a default that does not
/// fold is a bad default, and a column with no fallback is missing its
/// value.
pub open spec fn spec_insert_fallback(def: ColumnDefV, nullable: bool) -> Result<
    ValueV,
    ErrorV,
> {
    match def.default {
        Some(d) => match spec_reduce(d, None) {
            Ok(rr) => match spec_as_solution(rr) {
                Some(v) => Ok(v),
                None => Err(ErrorV::Insert(InsertErrorV::BadDefault)),
            },
            Err(_) => Err(ErrorV::Insert(InsertErrorV::BadDefault)),
        },
        None => if nullable {
            Ok(ValueV::Null)
        } else {
            Err(ErrorV::Insert(InsertErrorV::MissingValue))
        },
    }
}

/// The cells of one completed row, in declaration order from `ci` on; the
/// first error wins.
pub open spec fn spec_insert_row(
    defs: Seq<ColumnDefV>,
    stated: Seq<int>,
    row: Seq<ValueV>,
    ci: int,
    auto_increment_enabled: bool,
) -> Result<Seq<ValueV>, ErrorV>
    decreases defs.len() - ci,
{
    if ci < 0 || ci >= defs.len() {
        Ok(Seq::empty())
    } else {
        match spec_insert_cell(defs[ci], stated, row, ci, auto_increment_enabled) {
            Ok(v) => match spec_insert_row(defs, stated, row, ci + 1, auto_increment_enabled) {
                Ok(t) => Ok(seq![v] + t),
                Err(e) => Err(e),
            },
            Err(e) => Err(e),
        }
    }
}

/// The completed rows, in order; the first error wins.
pub open spec fn spec_insert_rows(
    defs: Seq<ColumnDefV>,
    stated: Seq<int>,
    rows: Seq<Seq<ValueV>>,
    auto_increment_enabled: bool,
) -> Result<Seq<Seq<ValueV>>, ErrorV>
    decreases rows.len(),
{
    if rows.len() == 0 {
        Ok(Seq::empty())
    } else {
        match spec_insert_row(defs, stated, rows[0], 0, auto_increment_enabled) {
            Ok(v) => match spec_insert_rows(
                defs,
                stated,
                rows.drop_first(),
                auto_increment_enabled,
            ) {
                Ok(t) => Ok(seq![v] + t),
                Err(e) => Err(e),
            },
            Err(e) => Err(e),
        }
    }
}

/// The images of a list of rows.
pub open spec fn rows_view(rows: Seq<Vec<Value>>) -> Seq<Seq<ValueV>> {
    rows.map_values(|r: Vec<Value>| vals_view(r@))
}

/// Validates and completes the rows of an insert: every row must have
/// exactly as many values as columns were stated; each stated value must
/// satisfy its column's nullability and type; each unstated column takes
/// its default, or null when nullable, or fails. Yields the completed rows
/// in declaration order.
#[verifier::loop_isolation(false)]
pub fn validate(
    column_defs: &Vec<ColumnDefinition>,
    stated_columns: &Vec<usize>,
    rows: Vec<Vec<Value>>,
    auto_increment_enabled: bool,
) -> (r: Result<Vec<Vec<Value>>, Error>)
    ensures
        ({
            let defsv = defs_view(column_defs@);
            let statedv = stated_columns@.map_values(|u: usize| u as int);
            if exists|i: int|
                0 <= i < rows@.len() && (#[trigger] rows@[i])@.len() != stated_columns@.len() {
                r matches Err(e) && e@ == ErrorV::Insert(InsertErrorV::WrongNumberOfValues)
            } else {
                match r {
                    Ok(out) => spec_insert_rows(
                        defsv,
                        statedv,
                        rows_view(rows@),
                        auto_increment_enabled,
                    ) == Ok::<Seq<Seq<ValueV>>, ErrorV>(rows_view(out@)),
                    Err(e) => spec_insert_rows(
                        defsv,
                        statedv,
                        rows_view(rows@),
                        auto_increment_enabled,
                    ) == Err::<Seq<Seq<ValueV>>, ErrorV>(e@),
                }
            }
        }),
{
    let ghost defsv = defs_view(column_defs@);
    let ghost statedv = stated_columns@.map_values(|u: usize| u as int);
    let ghost rowsv = rows_view(rows@);
    let mut i: usize = 0;
    while i < rows.len()
        invariant
            i <= rows@.len(),
            forall|j: int| 0 <= j < i ==> (#[trigger] rows@[j])@.len() == stated_columns@.len(),
        decreases rows@.len() - i,
    {
        if rows[i].len() != stated_columns.len() {
            return Err(Error::Insert(InsertError::WrongNumberOfValues));
        }
        i = i + 1;
    }
    let mut out: Vec<Vec<Value>> = Vec::new();
    let mut ri: usize = 0;
    proof {
        assert(rowsv.skip(0) =~= rowsv);
    }
    while ri < rows.len()
        invariant
            ri <= rows@.len(),
            defsv == defs_view(column_defs@),
            statedv == stated_columns@.map_values(|u: usize| u as int),
            rowsv == rows_view(rows@),
            spec_insert_rows(defsv, statedv, rowsv, auto_increment_enabled) == match
                spec_insert_rows(
                defsv,
                statedv,
                rowsv.skip(ri as int),
                auto_increment_enabled,
            ) {
                Ok(t) => Ok::<Seq<Seq<ValueV>>, ErrorV>(rows_view(out@) + t),
                Err(e) => Err::<Seq<Seq<ValueV>>, ErrorV>(e),
            },
        decreases rows@.len() - ri,
    {
        proof {
            assert(rowsv.skip(ri as int)[0] == rowsv[ri as int]);
            assert(rowsv.skip(ri as int).drop_first() =~= rowsv.skip(ri as int + 1));
        }
        let row = &rows[ri];
        let mut new_row: Vec<Value> = Vec::new();
        let mut ci: usize = 0;
        while ci < column_defs.len()
            invariant
                ci <= column_defs@.len(),
                ri < rows@.len(),
                defsv == defs_view(column_defs@),
                statedv == stated_columns@.map_values(|u: usize| u as int),
                rowsv == rows_view(rows@),
                row == &rows[ri as int],
                spec_insert_row(defsv, statedv, rowsv[ri as int], 0, auto_increment_enabled)
                    == match spec_insert_row(
                    defsv,
                    statedv,
                    rowsv[ri as int],
                    ci as int,
                    auto_increment_enabled,
                ) {
                    Ok(t) => Ok::<Seq<ValueV>, ErrorV>(vals_view(new_row@) + t),
                    Err(e) => Err::<Seq<ValueV>, ErrorV>(e),
                },
            decreases column_defs@.len() - ci,
        {
            match insert_cell(
                &column_defs[ci],
                stated_columns,
                row,
                ci,
                auto_increment_enabled,
            ) {
                Ok(v) => {
                    let ghost vv = v@;
                    let ghost old_new = vals_view(new_row@);
                    new_row.push(v);
                    proof {
                        assert(vals_view(new_row@) =~= old_new + seq![vv]);
                        match spec_insert_row(
                            defsv,
                            statedv,
                            rowsv[ri as int],
                            ci as int + 1,
                            auto_increment_enabled,
                        ) {
                            Ok(t) => {
                                assert(old_new + (seq![vv] + t) =~= vals_view(new_row@) + t);
                            },
                            Err(_) => {},
                        }
                    }
                },
                Err(e) => {
                    return Err(e);
                },
            }
            ci = ci + 1;
        }
        let ghost old_out = rows_view(out@);
        let ghost new_rowv = vals_view(new_row@);
        out.push(new_row);
        proof {
            assert(vals_view(new_row@) + Seq::<ValueV>::empty() =~= new_rowv);
            assert(rows_view(out@) =~= old_out + seq![new_rowv]);
            match spec_insert_rows(
                defsv,
                statedv,
                rowsv.skip(ri as int + 1),
                auto_increment_enabled,
            ) {
                Ok(t) => {
                    assert(old_out + (seq![new_rowv] + t) =~= rows_view(out@) + t);
                },
                Err(_) => {},
            }
        }
        ri = ri + 1;
    }
    proof {
        assert(rowsv.skip(ri as int) =~= Seq::<Seq<ValueV>>::empty());
        assert(rows_view(out@) + Seq::<Seq<ValueV>>::empty() =~= rows_view(out@));
    }
    Ok(out)
}

/// Completes and checks the cell of declared column `ci` for one row.
#[verifier::loop_isolation(false)]
fn insert_cell(
    def: &ColumnDefinition,
    stated_columns: &Vec<usize>,
    row: &Vec<Value>,
    ci: usize,
    auto_increment_enabled: bool,
) -> (r: Result<Value, Error>)
    ensures
        crate::error::res_view(r) == spec_insert_cell(
            def@,
            stated_columns@.map_values(|u: usize| u as int),
            vals_view(row@),
            ci as int,
            auto_increment_enabled,
        ),
{
    let ghost statedv = stated_columns@.map_values(|u: usize| u as int);
    let nullable = def.nullable || (auto_increment_enabled && def.auto_increment);
    let mut p: usize = 0;
    let mut found: Option<usize> = None;
    while p < stated_columns.len() && found.is_none()
        invariant
            p <= stated_columns@.len(),
            statedv == stated_columns@.map_values(|u: usize| u as int),
            match found {
                Some(f) => f < p && statedv[f as int] == ci as int && (forall|j: int|
                    0 <= j < f ==> statedv[j] != ci as int),
                None => forall|j: int| 0 <= j < p ==> statedv[j] != ci as int,
            },
        decreases stated_columns@.len() - p,
    {
        if stated_columns[p] == ci {
            found = Some(p);
        }
        p = p + 1;
    }
    proof {
        lemma_spec_index_position(statedv, ci as int);
    }
    match found {
        Some(f) => {
            proof {
                assert(spec_index_position(statedv, ci as int) == Some(f as int));
            }
            if f < row.len() {
                let v = row[f].clone();
                if matches!(&v, Value::Null) && !nullable {
                    Err(Error::Value(ValueError::NullValueOnNotNullField))
                } else {
                    match v.validate_type(&def.data_type) {
                        Ok(_) => Ok(v),
                        Err(e) => Err(e),
                    }
                }
            } else {
                insert_fallback(def, nullable)
            }
        },
        None => {
            proof {
                assert(spec_index_position(statedv, ci as int) is None);
            }
            insert_fallback(def, nullable)
        },
    }
}

/// The fallback value of an unstated column.
fn insert_fallback(def: &ColumnDefinition, nullable: bool) -> (r: Result<Value, Error>)
    ensures
        crate::error::res_view(r) == spec_insert_fallback(def@, nullable),
{
    match &def.default {
        Some(d) => match d.clone().simplify(&SimplifyBy::Basic) {
            Ok(folded) => match folded.as_solution() {
                Some(v) => Ok(v),
                None => Err(Error::Insert(InsertError::BadDefault)),
            },
            Err(_) => Err(Error::Insert(InsertError::BadDefault)),
        },
        None => if nullable {
            Ok(Value::Null)
        } else {
            Err(Error::Insert(InsertError::MissingValue))
        },
    }
}

/// `spec_index_position` finds the first slot holding the target, and finds
/// one exactly when some slot holds it.
proof fn lemma_spec_index_position(stated: Seq<int>, target: int)
    ensures
        match spec_index_position(stated, target) {
            Some(p) => 0 <= p < stated.len() && stated[p] == target && (forall|j: int|
                0 <= j < p ==> stated[j] != target),
            None => forall|j: int| 0 <= j < stated.len() ==> stated[j] != target,
        },
    decreases stated.len(),
{
    if stated.len() > 0 && stated[0] != target {
        let rest = stated.drop_first();
        lemma_spec_index_position(rest, target);
        match spec_index_position(rest, target) {
            Some(p) => {
                assert(stated[p + 1] == rest[p]);
                assert forall|j: int| 0 <= j < p + 1 implies stated[j] != target by {
                    if j >= 1 {
                        assert(stated[j] == rest[j - 1]);
                    }
                }
            },
            None => {
                assert forall|j: int| 0 <= j < stated.len() implies stated[j] != target by {
                    if j >= 1 {
                        assert(stated[j] == rest[j - 1]);
                    }
                }
            },
        }
    }
}

} // verus!
