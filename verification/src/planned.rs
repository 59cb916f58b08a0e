//! An expression tree bound to concrete column positions of one row shape.
//!
//! Binding happens once per query-compile step: every column reference the
//! tree's metadata names is resolved against the row shape's column list —
//! no match and more than one match are errors — and the positions are kept
//! beside the tree. Evaluation then condenses each candidate row to just the
//! needed positions (null for a position the row lacks) and simplifies the
//! tree against that condensed row.

use vstd::prelude::*;

use crate::error::{Error, ErrorV, RecipeError, RecipeErrorV};
use crate::functions::vals_view;
use crate::meta::{recipes_view, MetaRecipe};
use crate::ops::{accumulate, spec_accumulate, AggregateOperator};
use crate::recipe::{
    spec_as_solution, spec_reduce, spec_reduce_list, spec_replace_aggs, Ingredient, Recipe,
    RecipeV, SimplifyBy,
};
use crate::text::{dec_digits, push_dec_u64, push_str};
use crate::types::{clone_object_name, object_name_view, spec_matches_object, ColumnInfo,
    ColumnInfoV};
use crate::value::{Value, ValueV};

verus! {

/// The images of a column list.
pub open spec fn column_infos_view(cols: Seq<ColumnInfo>) -> Seq<ColumnInfoV> {
    cols.map_values(|c: ColumnInfo| c@)
}

/// The images of a position list.
pub open spec fn indexes_view(s: Seq<usize>) -> Seq<int> {
    s.map_values(|u: usize| u as int)
}

/// Whether position `i` of the column list matches the reference `o`.
pub open spec fn spec_match_at(cols: Seq<ColumnInfoV>, o: Seq<Seq<char>>, i: int) -> bool {
    0 <= i < cols.len() && spec_matches_object(cols[i], o)
}

/// Whether exactly one position matches, and it is `i`.
pub open spec fn spec_unique_match(cols: Seq<ColumnInfoV>, o: Seq<Seq<char>>, i: int) -> bool {
    spec_match_at(cols, o, i) && forall|j: int| spec_match_at(cols, o, j) ==> j == i
}

/// Whether no position matches.
pub open spec fn spec_no_match(cols: Seq<ColumnInfoV>, o: Seq<Seq<char>>) -> bool {
    forall|i: int| !spec_match_at(cols, o, i)
}

/// Whether at least two positions match.
pub open spec fn spec_ambiguous_match(cols: Seq<ColumnInfoV>, o: Seq<Seq<char>>) -> bool {
    exists|i: int, j: int| i != j && spec_match_at(cols, o, i) && spec_match_at(cols, o, j)
}

/// How binding fails at reference `k`: every earlier reference had exactly
/// one match, and this one has none (a missing column) or several (an
/// ambiguous column), with the error naming it.
pub open spec fn spec_bind_failure_at(
    cols: Seq<ColumnInfoV>,
    needs: Seq<Seq<Seq<char>>>,
    k: int,
    e: ErrorV,
) -> bool {
    &&& 0 <= k < needs.len()
    &&& (forall|j: int|
        #![trigger needs[j]]
        0 <= j < k ==> !spec_no_match(cols, needs[j]) && !spec_ambiguous_match(cols, needs[j]))
    &&& if spec_no_match(cols, needs[k]) {
        e == ErrorV::Recipe(RecipeErrorV::MissingColumn(needs[k]))
    } else {
        spec_ambiguous_match(cols, needs[k]) && e == ErrorV::Recipe(
            RecipeErrorV::AmbiguousColumn(needs[k]),
        )
    }
}

/// Each of the first `k` references, with its resolved position in hand,
/// has a unique match.
proof fn lemma_prefix_unique(
    cols: Seq<ColumnInfoV>,
    needs: Seq<Seq<Seq<char>>>,
    idxs: Seq<int>,
    k: int,
)
    requires
        0 <= k <= idxs.len(),
        k <= needs.len(),
        forall|j: int|
            0 <= j < k ==> spec_unique_match(cols, needs[j], #[trigger] idxs[j]),
    ensures
        forall|j: int|
            #![trigger needs[j]]
            0 <= j < k ==> !spec_no_match(cols, needs[j]) && !spec_ambiguous_match(
                cols,
                needs[j],
            ),
{
    assert forall|j: int| #![trigger needs[j]] 0 <= j < k implies !spec_no_match(
        cols,
        needs[j],
    ) && !spec_ambiguous_match(cols, needs[j]) by {
        assert(spec_unique_match(cols, needs[j], idxs[j]));
        assert(spec_match_at(cols, needs[j], idxs[j]));
        assert(!spec_no_match(cols, needs[j]));
        assert(!spec_ambiguous_match(cols, needs[j]));
    }
}

/// The condensed row: the needed positions picked out of a full row, with
/// null for a position the row lacks.
pub open spec fn spec_condense(needed: Seq<int>, row: Seq<ValueV>) -> Seq<ValueV> {
    needed.map_values(
        |i: int|
            if 0 <= i < row.len() {
                row[i]
            } else {
                ValueV::Null
            },
    )
}

/// What constraint confirmation yields: the tree simplified against the
/// condensed row must resolve — anything else is the fatal
/// missing-components condition — and the constraint holds exactly when the
/// solution is the boolean literal true.
pub open spec fn spec_confirm_constraint(
    recipe: RecipeV,
    needed: Seq<int>,
    row: Seq<ValueV>,
) -> Result<bool, ErrorV> {
    match spec_reduce(recipe, Some(spec_condense(needed, row))) {
        Ok(rr) => match spec_as_solution(rr) {
            Some(v) => Ok(v == ValueV::Bool(true)),
            None => Err(ErrorV::Recipe(RecipeErrorV::MissingComponents)),
        },
        Err(e) => Err(e),
    }
}

/// What one per-row accumulation step yields for one recorded aggregate: the
/// node must still be an aggregate whose argument resolved during the row
/// pass; its accumulator is applied to (argument value, accumulator so far).
pub open spec fn spec_aggregate_step(agg: RecipeV, acc: ValueV) -> Result<ValueV, ErrorV> {
    match agg {
        RecipeV::Aggregate(op, a) => match spec_as_solution(*a) {
            Some(v) => spec_accumulate(op, v, acc),
            None => Err(ErrorV::Recipe(RecipeErrorV::UnreachableAggregateFailed)),
        },
        RecipeV::Value(_) => Err(ErrorV::Recipe(RecipeErrorV::UnreachableNotMethod)),
        RecipeV::Column(_) => Err(ErrorV::Recipe(RecipeErrorV::UnreachableNotMethod)),
        _ => Err(ErrorV::Recipe(RecipeErrorV::UnreachableNotAggregate)),
    }
}

/// The accumulation steps over the recorded aggregates, paired positionally
/// with the accumulator states; the first error wins.
pub open spec fn spec_aggregate_all(aggs: Seq<RecipeV>, acc: Seq<ValueV>) -> Result<
    Seq<ValueV>,
    ErrorV,
>
    decreases aggs.len(),
{
    if aggs.len() == 0 || acc.len() == 0 {
        Ok(Seq::empty())
    } else {
        match spec_aggregate_step(aggs[0], acc[0]) {
            Ok(v) => match spec_aggregate_all(aggs.drop_first(), acc.drop_first()) {
                Ok(t) => Ok(seq![v] + t),
                Err(e) => Err(e),
            },
            Err(e) => Err(e),
        }
    }
}

/// A tree bound to the column positions of one row shape, with its recorded
/// aggregate sub-trees.
#[derive(Debug)]
pub struct PlannedRecipe {
    pub recipe: Recipe,
    pub needed_column_indexes: Vec<usize>,
    pub aggregates: Vec<Recipe>,
}

impl Clone for PlannedRecipe {
    #[verifier::loop_isolation(false)]
    fn clone(&self) -> (r: Self)
        ensures
            r.recipe@ == self.recipe@,
            indexes_view(r.needed_column_indexes@) == indexes_view(self.needed_column_indexes@),
            recipes_view(r.aggregates@) == recipes_view(self.aggregates@),
    {
        let recipe = self.recipe.clone();
        let mut needed: Vec<usize> = Vec::new();
        let mut i: usize = 0;
        while i < self.needed_column_indexes.len()
            invariant
                i <= self.needed_column_indexes@.len(),
                needed@.len() == i,
                forall|j: int| 0 <= j < i ==> needed@[j] == self.needed_column_indexes@[j],
            decreases self.needed_column_indexes@.len() - i,
        {
            needed.push(self.needed_column_indexes[i]);
            i = i + 1;
        }
        let mut aggregates: Vec<Recipe> = Vec::new();
        let mut k: usize = 0;
        while k < self.aggregates.len()
            invariant
                k <= self.aggregates@.len(),
                aggregates@.len() == k,
                forall|j: int| 0 <= j < k ==> aggregates@[j]@ == self.aggregates@[j]@,
            decreases self.aggregates@.len() - k,
        {
            aggregates.push(self.aggregates[k].clone());
            k = k + 1;
        }
        proof {
            assert(indexes_view(needed@) =~= indexes_view(self.needed_column_indexes@));
            assert(recipes_view(aggregates@) =~= recipes_view(self.aggregates@));
        }
        PlannedRecipe { recipe, needed_column_indexes: needed, aggregates }
    }
}

impl PlannedRecipe {
    /// The constraint that holds for every row: the boolean literal true,
    /// needing no columns.
    pub fn true_filter() -> (r: Self)
        ensures
            r.recipe@ == RecipeV::Value(ValueV::Bool(true)),
            r.needed_column_indexes@.len() == 0,
            r.aggregates@.len() == 0,
    {
        PlannedRecipe {
            recipe: Recipe::true_recipe(),
            needed_column_indexes: Vec::new(),
            aggregates: Vec::new(),
        }
    }

    /// The plan that projects the single column at `index` of the row shape.
    pub fn of_index(index: usize) -> (r: Self)
        ensures
            r.recipe@ == RecipeV::Column(0),
            indexes_view(r.needed_column_indexes@) == seq![index as int],
            r.aggregates@.len() == 0,
    {
        let mut needed: Vec<usize> = Vec::new();
        needed.push(index);
        proof {
            assert(indexes_view(needed@) =~= seq![index as int]);
        }
        PlannedRecipe {
            recipe: Recipe::single_column(),
            needed_column_indexes: needed,
            aggregates: Vec::new(),
        }
    }

    /// Binds a tree to a row shape: each column reference of the tree's
    /// metadata must match exactly one position of `columns` — none is a
    /// missing column, more than one an ambiguous column, each a user-facing
    /// error naming the reference.
    #[verifier::loop_isolation(false)]
    pub fn new(meta_recipe: MetaRecipe, columns: &Vec<ColumnInfo>) -> (r: Result<Self, Error>)
        ensures
            ({
                let needs = meta_recipe.meta@.columns;
                let cols = column_infos_view(columns@);
                match r {
                    Ok(p) => {
                        &&& p.recipe@ == meta_recipe.recipe@
                        &&& recipes_view(p.aggregates@) == meta_recipe.meta@.aggregates
                        &&& p.needed_column_indexes@.len() == needs.len()
                        &&& forall|k: int|
                            0 <= k < needs.len() ==> spec_unique_match(
                                cols,
                                needs[k],
                                #[trigger] indexes_view(p.needed_column_indexes@)[k],
                            )
                    },
                    Err(e) => exists|k: int| spec_bind_failure_at(cols, needs, k, e@),
                }
            }),
    {
        let ghost needs = meta_recipe.meta@.columns;
        let ghost cols = column_infos_view(columns@);
        let MetaRecipe { recipe, meta } = meta_recipe;
        let mut needed: Vec<usize> = Vec::new();
        let mut k: usize = 0;
        while k < meta.columns.len()
            invariant
                k <= meta.columns@.len(),
                needs == crate::meta::columns_view(meta.columns@),
                cols == column_infos_view(columns@),
                needed@.len() == k,
                forall|j: int|
                    0 <= j < k ==> spec_unique_match(
                        cols,
                        needs[j],
                        #[trigger] indexes_view(needed@)[j],
                    ),
            decreases meta.columns@.len() - k,
        {
            let need = &meta.columns[k];
            let ghost needv = needs[k as int];
            let mut first: Option<usize> = None;
            let mut ambiguous = false;
            let mut i: usize = 0;
            while i < columns.len()
                invariant
                    i <= columns@.len(),
                    cols == column_infos_view(columns@),
                    needv == object_name_view(need@),
                    match first {
                        Some(f) => f < i && spec_match_at(cols, needv, f as int) && (forall|
                            j: int,
                        |
                            0 <= j < i && j != f ==> ambiguous || !spec_match_at(
                                cols,
                                needv,
                                j,
                            )),
                        None => !ambiguous && forall|j: int|
                            0 <= j < i ==> !spec_match_at(cols, needv, j),
                    },
                    ambiguous ==> first is Some,
                    ambiguous ==> spec_ambiguous_match(cols, needv),
                decreases columns@.len() - i,
            {
                if columns[i].matches_object(need) {
                    match first {
                        Some(f) => {
                            ambiguous = true;
                            proof {
                                assert(f as int != i as int && spec_match_at(
                                    cols,
                                    needv,
                                    f as int,
                                ) && spec_match_at(cols, needv, i as int));
                                assert(spec_ambiguous_match(cols, needv));
                            }
                        },
                        None => {
                            first = Some(i);
                        },
                    }
                }
                i = i + 1;
            }
            if ambiguous {
                let name = clone_object_name(need);
                let err = Error::Recipe(RecipeError::AmbiguousColumn(name));
                proof {
                    lemma_prefix_unique(cols, needs, indexes_view(needed@), k as int);
                    assert(!spec_no_match(cols, needs[k as int]));
                    assert(spec_bind_failure_at(cols, needs, k as int, err@));
                }
                return Err(err);
            }
            match first {
                Some(f) => {
                    let ghost old_needed = needed@;
                    needed.push(f);
                    proof {
                        assert(indexes_view(needed@) =~= indexes_view(old_needed).push(
                            f as int,
                        ));
                        assert(forall|j: int|
                            spec_match_at(cols, needv, j) ==> j == f as int);
                        assert(spec_unique_match(cols, needv, f as int));
                    }
                },
                None => {
                    let name = clone_object_name(need);
                    let err = Error::Recipe(RecipeError::MissingColumn(name));
                    proof {
                        lemma_prefix_unique(cols, needs, indexes_view(needed@), k as int);
                        assert(spec_no_match(cols, needs[k as int]));
                        assert(spec_bind_failure_at(cols, needs, k as int, err@));
                    }
                    return Err(err);
                },
            }
            k = k + 1;
        }
        Ok(PlannedRecipe { recipe, needed_column_indexes: needed, aggregates: meta.aggregates })
    }

    /// The condensed row: the needed positions picked out of `row`, null for
    /// a position the row lacks.
    #[verifier::loop_isolation(false)]
    fn condense_row(&self, row: &Vec<Value>) -> (r: Vec<Value>)
        ensures
            vals_view(r@) == spec_condense(
                indexes_view(self.needed_column_indexes@),
                vals_view(row@),
            ),
    {
        let mut out: Vec<Value> = Vec::new();
        let mut k: usize = 0;
        while k < self.needed_column_indexes.len()
            invariant
                k <= self.needed_column_indexes@.len(),
                out@.len() == k,
                forall|j: int|
                    0 <= j < k ==> #[trigger] out@[j]@ == spec_condense(
                        indexes_view(self.needed_column_indexes@),
                        vals_view(row@),
                    )[j],
            decreases self.needed_column_indexes@.len() - k,
        {
            let idx = self.needed_column_indexes[k];
            if idx < row.len() {
                out.push(row[idx].clone());
            } else {
                out.push(Value::Null);
            }
            k = k + 1;
        }
        proof {
            assert(vals_view(out@) =~= spec_condense(
                indexes_view(self.needed_column_indexes@),
                vals_view(row@),
            ));
        }
        out
    }

    /// Whether this constraint holds of `row`: the tree, simplified against
    /// the condensed row, must resolve, and the constraint holds exactly
    /// when it resolves to the boolean literal true. A tree that does not
    /// resolve is the fatal missing-components condition.
    pub fn confirm_constraint(&self, row: &Vec<Value>) -> (r: Result<bool, Error>)
        ensures
            crate::error::res_view(r) == spec_confirm_constraint(
                self.recipe@,
                indexes_view(self.needed_column_indexes@),
                vals_view(row@),
            ),
    {
        let condensed = self.condense_row(row);
        let simplified = match self.recipe.clone().simplify(&SimplifyBy::Row(condensed)) {
            Ok(s) => s,
            Err(e) => {
                return Err(e);
            },
        };
        let solution = simplified.confirm_or_err(
            Error::Recipe(RecipeError::MissingComponents),
        )?;
        Ok(matches!(solution, Value::Bool(true)))
    }

    /// Whether this join constraint holds of the pair: the accumulated outer
    /// row extended with the candidate inner row, tested as one row. This is
    /// the per-pair test of nested-loop join evaluation, run once per pair
    /// of candidate rows.
    #[verifier::loop_isolation(false)]
    pub fn confirm_join_constraint(&self, plane_row: &Vec<Value>, self_row: &Vec<Value>) -> (r:
        Result<bool, Error>)
        ensures
            crate::error::res_view(r) == spec_confirm_constraint(
                self.recipe@,
                indexes_view(self.needed_column_indexes@),
                vals_view(plane_row@) + vals_view(self_row@),
            ),
    {
        let mut combined: Vec<Value> = Vec::new();
        let mut i: usize = 0;
        while i < plane_row.len()
            invariant
                i <= plane_row@.len(),
                combined@.len() == i,
                forall|j: int| 0 <= j < i ==> combined@[j]@ == plane_row@[j]@,
            decreases plane_row@.len() - i,
        {
            combined.push(plane_row[i].clone());
            i = i + 1;
        }
        let mut k: usize = 0;
        while k < self_row.len()
            invariant
                k <= self_row@.len(),
                combined@.len() == plane_row@.len() + k,
                forall|j: int| 0 <= j < plane_row@.len() ==> combined@[j]@ == plane_row@[j]@,
                forall|j: int|
                    0 <= j < k ==> combined@[plane_row@.len() + j]@ == self_row@[j]@,
            decreases self_row@.len() - k,
        {
            combined.push(self_row[k].clone());
            k = k + 1;
        }
        proof {
            assert(vals_view(combined@) =~= vals_view(plane_row@) + vals_view(self_row@));
        }
        self.confirm_constraint(&combined)
    }

    /// Simplifies the tree and every recorded aggregate against one row:
    /// the aggregates' arguments resolve, and the tree folds everything
    /// except the aggregate boundaries.
    #[verifier::loop_isolation(false)]
    pub fn simplify_by_row(self, row: &Vec<Value>) -> (r: Result<Self, Error>)
        ensures
            ({
                let cond = spec_condense(
                    indexes_view(self.needed_column_indexes@),
                    vals_view(row@),
                );
                match r {
                    Ok(p) => {
                        &&& indexes_view(p.needed_column_indexes@) == indexes_view(
                            self.needed_column_indexes@,
                        )
                        &&& spec_reduce(self.recipe@, Some(cond)) == Ok::<RecipeV, ErrorV>(
                            p.recipe@,
                        )
                        &&& spec_reduce_list(recipes_view(self.aggregates@), Some(cond))
                            == Ok::<Seq<RecipeV>, ErrorV>(recipes_view(p.aggregates@))
                    },
                    Err(e) => {
                        ||| spec_reduce(self.recipe@, Some(cond)) == Err::<RecipeV, ErrorV>(e@)
                        ||| (spec_reduce(self.recipe@, Some(cond)) is Ok && spec_reduce_list(
                            recipes_view(self.aggregates@),
                            Some(cond),
                        ) == Err::<Seq<RecipeV>, ErrorV>(e@))
                    },
                }
            }),
    {
        let ghost cond = spec_condense(
            indexes_view(self.needed_column_indexes@),
            vals_view(row@),
        );
        let condensed = self.condense_row(row);
        let PlannedRecipe { recipe, needed_column_indexes, aggregates } = self;
        let ghost aggsv = recipes_view(aggregates@);
        let by = SimplifyBy::Row(condensed);
        let recipe = match recipe.simplify(&by) {
            Ok(s) => s,
            Err(e) => {
                return Err(e);
            },
        };
        let mut new_aggs: Vec<Recipe> = Vec::new();
        let mut i: usize = 0;
        proof {
            assert(aggsv.skip(0) =~= aggsv);
        }
        while i < aggregates.len()
            invariant
                i <= aggregates@.len(),
                aggsv == recipes_view(aggregates@),
                by == SimplifyBy::Row(condensed),
                vals_view(condensed@) == cond,
                spec_reduce_list(aggsv, Some(cond)) == match spec_reduce_list(
                    aggsv.skip(i as int),
                    Some(cond),
                ) {
                    Ok(t) => Ok::<Seq<RecipeV>, ErrorV>(recipes_view(new_aggs@) + t),
                    Err(e) => Err::<Seq<RecipeV>, ErrorV>(e),
                },
            decreases aggregates@.len() - i,
        {
            let a = aggregates[i].clone();
            match a.simplify(&by) {
                Ok(s) => {
                    let ghost sv = s@;
                    let ghost old_new = recipes_view(new_aggs@);
                    new_aggs.push(s);
                    proof {
                        assert(aggsv.skip(i as int)[0] == aggsv[i as int]);
                        assert(aggsv.skip(i as int).drop_first() =~= aggsv.skip(i as int + 1));
                        assert(recipes_view(new_aggs@) =~= old_new + seq![sv]);
                        match spec_reduce_list(aggsv.skip(i as int + 1), Some(cond)) {
                            Ok(t) => {
                                assert(old_new + (seq![sv] + t) =~= recipes_view(new_aggs@)
                                    + t);
                            },
                            Err(_) => {},
                        }
                    }
                },
                Err(e) => {
                    proof {
                        assert(aggsv.skip(i as int)[0] == aggsv[i as int]);
                    }
                    return Err(e);
                },
            }
            i = i + 1;
        }
        proof {
            assert(aggsv.skip(i as int) =~= Seq::<RecipeV>::empty());
            assert(recipes_view(new_aggs@) + Seq::<RecipeV>::empty() =~= recipes_view(
                new_aggs@,
            ));
        }
        Ok(PlannedRecipe { recipe, needed_column_indexes, aggregates: new_aggs })
    }

    /// Runs one accumulation step for every recorded aggregate, paired
    /// positionally with the accumulator states — null-initialized when this
    /// is the first row. A non-aggregate node among the recorded aggregates
    /// is a fatal internal-consistency error.
    #[verifier::loop_isolation(false)]
    pub fn aggregate(&self, accumulated: Vec<Value>) -> (r: Result<Vec<Value>, Error>)
        ensures
            ({
                let aggs = recipes_view(self.aggregates@);
                let acc = if accumulated@.len() == 0 {
                    Seq::new(aggs.len(), |i: int| ValueV::Null)
                } else {
                    vals_view(accumulated@)
                };
                match r {
                    Ok(out) => spec_aggregate_all(aggs, acc) == Ok::<Seq<ValueV>, ErrorV>(
                        vals_view(out@),
                    ),
                    Err(e) => spec_aggregate_all(aggs, acc) == Err::<Seq<ValueV>, ErrorV>(e@),
                }
            }),
    {
        let ghost aggs = recipes_view(self.aggregates@);
        let mut acc = accumulated;
        if acc.len() == 0 {
            let mut k: usize = 0;
            while k < self.aggregates.len()
                invariant
                    k <= self.aggregates@.len(),
                    acc@.len() == k,
                    forall|j: int| 0 <= j < k ==> acc@[j]@ == ValueV::Null,
                decreases self.aggregates@.len() - k,
            {
                acc.push(Value::Null);
                k = k + 1;
            }
        }
        let ghost accv = vals_view(acc@);
        let mut out: Vec<Value> = Vec::new();
        let mut i: usize = 0;
        proof {
            assert(aggs.skip(0) =~= aggs);
            assert(accv.skip(0) =~= accv);
            if accumulated@.len() == 0 {
                assert(vals_view(acc@) =~= Seq::new(aggs.len(), |j: int| ValueV::Null));
            }
        }
        while i < self.aggregates.len() && i < acc.len()
            invariant
                i <= self.aggregates@.len(),
                i <= acc@.len(),
                aggs == recipes_view(self.aggregates@),
                accv == vals_view(acc@),
                aggs.len() == self.aggregates@.len(),
                spec_aggregate_all(aggs, accv) == match spec_aggregate_all(
                    aggs.skip(i as int),
                    accv.skip(i as int),
                ) {
                    Ok(t) => Ok::<Seq<ValueV>, ErrorV>(vals_view(out@) + t),
                    Err(e) => Err::<Seq<ValueV>, ErrorV>(e),
                },
            decreases self.aggregates@.len() - i,
        {
            proof {
                assert(aggs.skip(i as int)[0] == aggs[i as int]);
                assert(accv.skip(i as int)[0] == accv[i as int]);
                assert(aggs.skip(i as int).drop_first() =~= aggs.skip(i as int + 1));
                assert(accv.skip(i as int).drop_first() =~= accv.skip(i as int + 1));
            }
            let step = match &self.aggregates[i] {
                Recipe::Method(m) => match &**m {
                    crate::recipe::Method::Aggregate(op, argument) => {
                        match argument.as_solution() {
                            Some(v) => accumulate(*op, &v, &acc[i]),
                            None => Err(
                                Error::Recipe(RecipeError::UnreachableAggregateFailed),
                            ),
                        }
                    },
                    _ => Err(Error::Recipe(RecipeError::UnreachableNotAggregate)),
                },
                Recipe::Ingredient(_) => Err(Error::Recipe(RecipeError::UnreachableNotMethod)),
            };
            match step {
                Ok(v) => {
                    let ghost vv = v@;
                    let ghost old_out = vals_view(out@);
                    out.push(v);
                    proof {
                        assert(vals_view(out@) =~= old_out + seq![vv]);
                        match spec_aggregate_all(aggs.skip(i as int + 1), accv.skip(
                            i as int + 1,
                        )) {
                            Ok(t) => {
                                assert(old_out + (seq![vv] + t) =~= vals_view(out@) + t);
                            },
                            Err(_) => {},
                        }
                    }
                },
                Err(e) => {
                    return Err(e);
                },
            }
            i = i + 1;
        }
        proof {
            if i >= aggs.len() {
                assert(aggs.skip(i as int) =~= Seq::<RecipeV>::empty());
            } else {
                assert(accv.skip(i as int) =~= Seq::<ValueV>::empty());
            }
            assert(vals_view(out@) + Seq::<ValueV>::empty() =~= vals_view(out@));
        }
        Ok(out)
    }

    /// The final pass of an aggregation: the finished per-group aggregate
    /// values are substituted for the aggregate nodes, and the tree must
    /// then resolve to the group's single output value.
    pub fn solve_by_aggregate(self, accumulated: Vec<Value>) -> (r: Result<Value, Error>)
        ensures
            ({
                let folded = spec_reduce(
                    spec_replace_aggs(self.recipe@, vals_view(accumulated@), 0).0,
                    None,
                );
                match r {
                    Ok(v) => folded matches Ok(rr) && spec_as_solution(rr) == Some(v@),
                    Err(e) => {
                        ||| folded == Err::<RecipeV, ErrorV>(e@)
                        ||| (folded matches Ok(rr) && spec_as_solution(rr) is None && e@
                            == ErrorV::Recipe(RecipeErrorV::UnreachableAggregateFailed))
                    },
                }
            }),
    {
        let folded = self.recipe.simplify(&SimplifyBy::CompletedAggregate(accumulated))?;
        folded.confirm_or_err(Error::Recipe(RecipeError::UnreachableAggregateFailed))
    }

    /// The display label of a projected column: `table.column` or `column`
    /// when the tree is exactly a bare column reference resolving into the
    /// column list, and the synthesized `unnamed_<index>` otherwise.
    pub fn get_label(
        &self,
        selection_index: usize,
        include_table: bool,
        columns: &Vec<ColumnInfo>,
    ) -> (r: String)
        ensures
            r@ == spec_get_label(
                self.recipe@,
                indexes_view(self.needed_column_indexes@),
                selection_index as int,
                include_table,
                column_infos_view(columns@),
            ),
    {
        if matches!(&self.recipe, Recipe::Ingredient(Ingredient::Column(_)))
            && self.needed_column_indexes.len() > 0 && self.needed_column_indexes[0]
            < columns.len() {
            let column = &columns[self.needed_column_indexes[0]];
            if include_table {
                let mut label = column.table.name.clone();
                push_str(&mut label, ".");
                push_str(&mut label, column.name.as_str());
                proof {
                    reveal_strlit(".");
                }
                label
            } else {
                column.name.clone()
            }
        } else {
            let mut label = String::new();
            push_str(&mut label, "unnamed_");
            push_dec_u64(&mut label, selection_index as u64);
            proof {
                reveal_strlit("unnamed_");
            }
            label
        }
    }
}

/// The display label of a projected column.
pub open spec fn spec_get_label(
    recipe: RecipeV,
    needed: Seq<int>,
    selection_index: int,
    include_table: bool,
    cols: Seq<ColumnInfoV>,
) -> Seq<char> {
    if recipe is Column && needed.len() > 0 && 0 <= needed[0] < cols.len() {
        let column = cols[needed[0]];
        if include_table {
            column.table.name + "."@ + column.name
        } else {
            column.name
        }
    } else {
        "unnamed_"@ + dec_digits(selection_index)
    }
}

} // verus!
