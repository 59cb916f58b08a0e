//! The engine's general laws, each stated over the same spec functions its
//! public contracts use and proved for every input.

use vstd::prelude::*;

use crate::error::ErrorV;
use crate::planned::spec_confirm_constraint;
use crate::recipe::{all_values, spec_as_solution, spec_reduce, spec_reduce_list, RecipeV};
use crate::types::{spec_matches_object, ColumnInfoV};
use crate::value::ValueV;

verus! {

/// Whether a tree holds no column reference.
pub open spec fn spec_no_columns(r: RecipeV) -> bool
    decreases r, 1int,
{
    match r {
        RecipeV::Value(_) => true,
        RecipeV::Column(_) => false,
        RecipeV::Unary(_, a) => spec_no_columns(*a),
        RecipeV::Binary(_, a, b) => spec_no_columns(*a) && spec_no_columns(*b),
        RecipeV::Function(_, args) => spec_no_columns_list(args),
        RecipeV::Aggregate(_, a) => spec_no_columns(*a),
    }
}

/// Whether no tree in the list holds a column reference.
pub open spec fn spec_no_columns_list(args: Seq<RecipeV>) -> bool
    decreases args, 0int,
{
    args.len() == 0 || (spec_no_columns(args[0]) && spec_no_columns_list(args.drop_first()))
}

/// Whether a tree holds no aggregate node.
pub open spec fn spec_no_aggregates(r: RecipeV) -> bool
    decreases r, 1int,
{
    match r {
        RecipeV::Value(_) => true,
        RecipeV::Column(_) => true,
        RecipeV::Unary(_, a) => spec_no_aggregates(*a),
        RecipeV::Binary(_, a, b) => spec_no_aggregates(*a) && spec_no_aggregates(*b),
        RecipeV::Function(_, args) => spec_no_aggregates_list(args),
        RecipeV::Aggregate(_, _) => false,
    }
}

/// Whether no tree in the list holds an aggregate node.
pub open spec fn spec_no_aggregates_list(args: Seq<RecipeV>) -> bool
    decreases args, 0int,
{
    args.len() == 0 || (spec_no_aggregates(args[0]) && spec_no_aggregates_list(
        args.drop_first(),
    ))
}

/// A tree with no column references and no aggregates that simplifies in
/// Basic mode without an evaluation error simplifies all the way to a
/// single resolved value, and simplifying that result again gives it back
/// unchanged.
pub proof fn lemma_basic_simplify_resolves(r: RecipeV)
    requires
        spec_no_columns(r),
        spec_no_aggregates(r),
    ensures
        match spec_reduce(r, None) {
            Ok(rr) => rr is Value && spec_reduce(rr, None) == Ok::<RecipeV, ErrorV>(rr),
            Err(_) => true,
        },
    decreases r, 1int,
{
    match r {
        RecipeV::Value(_) => {},
        RecipeV::Column(_) => {},
        RecipeV::Unary(_, a) => {
            lemma_basic_simplify_resolves(*a);
        },
        RecipeV::Binary(_, a, b) => {
            lemma_basic_simplify_resolves(*a);
            lemma_basic_simplify_resolves(*b);
        },
        RecipeV::Function(_, args) => {
            lemma_basic_simplify_resolves_list(args);
        },
        RecipeV::Aggregate(_, _) => {},
    }
}

/// The list form of the resolution law.
proof fn lemma_basic_simplify_resolves_list(args: Seq<RecipeV>)
    requires
        spec_no_columns_list(args),
        spec_no_aggregates_list(args),
    ensures
        match spec_reduce_list(args, None) {
            Ok(rargs) => all_values(rargs),
            Err(_) => true,
        },
    decreases args, 0int,
{
    if args.len() > 0 {
        lemma_basic_simplify_resolves(args[0]);
        lemma_basic_simplify_resolves_list(args.drop_first());
        match spec_reduce(args[0], None) {
            Ok(h) => match spec_reduce_list(args.drop_first(), None) {
                Ok(t) => {
                    assert forall|i: int| 0 <= i < (seq![h] + t).len() implies (seq![h]
                        + t)[i] is Value by {
                        if i == 0 {
                            assert((seq![h] + t)[0] == h);
                        } else {
                            assert((seq![h] + t)[i] == t[i - 1]);
                        }
                    }
                },
                Err(_) => {},
            },
            Err(_) => {},
        }
    }
}

/// The constraint built from the boolean literal `TRUE`, which needs no
/// columns, confirms every row — the empty row included.
pub proof fn lemma_true_constraint_confirms(row: Seq<ValueV>)
    ensures
        spec_confirm_constraint(RecipeV::Value(ValueV::Bool(true)), Seq::empty(), row)
            == Ok::<bool, ErrorV>(true),
{
}

/// Column-identity matching is alias-symmetric: a reference `t.col` matches
/// a column exactly when `col` is its name and `t` is its table's name or
/// its table's alias — a different table name matches only through the
/// alias.
pub proof fn lemma_alias_symmetric(c: ColumnInfoV, t: Seq<char>, col: Seq<char>)
    ensures
        spec_matches_object(c, seq![t, col]) <==> (col == c.name && (t == c.table.name || (
        c.table.alias matches Some(a) && t == a))),
{
    assert(seq![t, col].len() == 2);
    assert(seq![t, col][1] == col);
    assert(seq![t, col][0] == t);
}

/// Round trip: a tree built from one literal value simplifies in Basic mode
/// to itself, and its solution is exactly that value.
pub proof fn lemma_value_round_trip(v: ValueV)
    ensures
        spec_reduce(RecipeV::Value(v), None) == Ok::<RecipeV, ErrorV>(RecipeV::Value(v)),
        spec_as_solution(RecipeV::Value(v)) == Some(v),
{
}

} // verus!
