//! The lazily-simplifiable expression tree.
//!
//! A `Recipe` has two node kinds: an `Ingredient` — a literal value already
//! known, or a column reference waiting for a row — and a `Method` — an
//! operator, scalar function or aggregate applied to child recipes.
//! Simplification rewrites the tree bottom-up: any method whose children
//! have all become values collapses to a value, unresolved subtrees stay,
//! and aggregate methods are never evaluated by simplification (they need
//! every row, not one). A tree that is a single resolved ingredient is a
//! solution.

use vstd::prelude::*;

use crate::error::{Error, ErrorV};
use crate::functions::{spec_apply_function, vals_view, FunctionKind};
use crate::ops::{
    eval_binary, eval_unary, spec_binary, spec_unary, AggregateOperator, BinaryOperator,
    UnaryOperator,
};
use crate::value::{Value, ValueV};

verus! {

/// A leaf of an expression tree: a known value, or a reference to the
/// column at a position of the tree's own (deduplicated) column list.
#[derive(Debug)]
pub enum Ingredient {
    Value(Value),
    Column(usize),
}

/// An interior node: an operator, scalar function or aggregate applied to
/// child recipes. `NOW()` never appears here: it is evaluated once when the
/// tree is built, so one statement sees one instant.
#[derive(Debug)]
pub enum Method {
    UnaryOperation(UnaryOperator, Recipe),
    BinaryOperation(BinaryOperator, Recipe, Recipe),
    Function(FunctionKind, Vec<Recipe>),
    Aggregate(AggregateOperator, Recipe),
}

/// An expression tree over values and column placeholders.
#[derive(Debug)]
pub enum Recipe {
    Ingredient(Ingredient),
    Method(Box<Method>),
}

/// The mathematical image of an expression tree.
pub enum RecipeV {
    Value(ValueV),
    Column(int),
    Unary(UnaryOperator, Box<RecipeV>),
    Binary(BinaryOperator, Box<RecipeV>, Box<RecipeV>),
    Function(FunctionKind, Seq<RecipeV>),
    Aggregate(AggregateOperator, Box<RecipeV>),
}

/// The image of a tree.
pub open spec fn recipe_view(r: Recipe) -> RecipeV
    decreases r, 1int,
{
    match r {
        Recipe::Ingredient(Ingredient::Value(v)) => RecipeV::Value(v@),
        Recipe::Ingredient(Ingredient::Column(i)) => RecipeV::Column(i as int),
        Recipe::Method(m) => match *m {
            Method::UnaryOperation(op, a) => RecipeV::Unary(op, Box::new(recipe_view(a))),
            Method::BinaryOperation(op, a, b) => RecipeV::Binary(
                op,
                Box::new(recipe_view(a)),
                Box::new(recipe_view(b)),
            ),
            Method::Function(kind, args) => RecipeV::Function(kind, recipe_list_view(args@)),
            Method::Aggregate(op, a) => RecipeV::Aggregate(op, Box::new(recipe_view(a))),
        },
    }
}

/// The images of a list of trees.
pub open spec fn recipe_list_view(args: Seq<Recipe>) -> Seq<RecipeV>
    decreases args, 0int,
{
    if args.len() == 0 {
        Seq::empty()
    } else {
        seq![recipe_view(args[0])] + recipe_list_view(args.drop_first())
    }
}

/// A list's image has the element images, in order.
pub broadcast proof fn lemma_recipe_list_view(args: Seq<Recipe>)
    ensures
        (#[trigger] recipe_list_view(args)).len() == args.len(),
        forall|i: int|
            0 <= i < args.len() ==> recipe_list_view(args)[i] == recipe_view(args[i]),
    decreases args.len(),
{
    if args.len() > 0 {
        lemma_recipe_list_view(args.drop_first());
    }
}

impl View for Recipe {
    type V = RecipeV;

    open spec fn view(&self) -> RecipeV {
        recipe_view(*self)
    }
}

/// What simplification resolves column references with: nothing (the Basic
/// mode, which folds constants only), or a condensed row (the Row mode).
pub enum SimplifyBy {
    Basic,
    Row(Vec<Value>),
    CompletedAggregate(Vec<Value>),
}

/// The image of an optional condensed row.
pub open spec fn opt_row_view(row: Option<&Vec<Value>>) -> Option<Seq<ValueV>> {
    match row {
        Some(vals) => Some(vals_view(vals@)),
        None => None,
    }
}

/// Whether every tree in the list is a resolved value.
pub open spec fn all_values(s: Seq<RecipeV>) -> bool {
    forall|i: int| 0 <= i < s.len() ==> s[i] is Value
}

/// The value a resolved tree holds (null on any other node, which callers
/// rule out).
pub open spec fn value_of(r: RecipeV) -> ValueV {
    match r {
        RecipeV::Value(v) => v,
        _ => ValueV::Null,
    }
}

/// The values a list of resolved trees holds.
pub open spec fn values_of(s: Seq<RecipeV>) -> Seq<ValueV> {
    s.map_values(|r: RecipeV| value_of(r))
}

/// What one bottom-up simplification pass yields: column references resolve
/// against the row when one is supplied (a reference past its end stays), a
/// method whose children all became values evaluates — except an aggregate,
/// which keeps its node with a simplified argument — and an evaluation
/// error is the whole pass's error.
pub open spec fn spec_reduce(r: RecipeV, row: Option<Seq<ValueV>>) -> Result<RecipeV, ErrorV>
    decreases r, 1int,
{
    match r {
        RecipeV::Value(_) => Ok(r),
        RecipeV::Column(i) => match row {
            Some(vals) => if 0 <= i < vals.len() {
                Ok(RecipeV::Value(vals[i]))
            } else {
                Ok(r)
            },
            None => Ok(r),
        },
        RecipeV::Unary(op, a) => match spec_reduce(*a, row) {
            Ok(ra) => match ra {
                RecipeV::Value(v) => match spec_unary(op, v) {
                    Ok(w) => Ok(RecipeV::Value(w)),
                    Err(e) => Err(e),
                },
                _ => Ok(RecipeV::Unary(op, Box::new(ra))),
            },
            Err(e) => Err(e),
        },
        RecipeV::Binary(op, a, b) => match spec_reduce(*a, row) {
            Ok(ra) => match spec_reduce(*b, row) {
                Ok(rb) => match (ra, rb) {
                    (RecipeV::Value(va), RecipeV::Value(vb)) => match spec_binary(op, va, vb) {
                        Ok(w) => Ok(RecipeV::Value(w)),
                        Err(e) => Err(e),
                    },
                    _ => Ok(RecipeV::Binary(op, Box::new(ra), Box::new(rb))),
                },
                Err(e) => Err(e),
            },
            Err(e) => Err(e),
        },
        RecipeV::Function(kind, args) => match spec_reduce_list(args, row) {
            Ok(rargs) => if all_values(rargs) {
                match spec_apply_function(kind, values_of(rargs)) {
                    Ok(w) => Ok(RecipeV::Value(w)),
                    Err(e) => Err(e),
                }
            } else {
                Ok(RecipeV::Function(kind, rargs))
            },
            Err(e) => Err(e),
        },
        RecipeV::Aggregate(op, a) => match spec_reduce(*a, row) {
            Ok(ra) => Ok(RecipeV::Aggregate(op, Box::new(ra))),
            Err(e) => Err(e),
        },
    }
}

/// One simplification pass over a list of children, left to right; the first
/// error wins.
pub open spec fn spec_reduce_list(args: Seq<RecipeV>, row: Option<Seq<ValueV>>) -> Result<
    Seq<RecipeV>,
    ErrorV,
>
    decreases args, 0int,
{
    if args.len() == 0 {
        Ok(Seq::empty())
    } else {
        match spec_reduce(args[0], row) {
            Ok(h) => match spec_reduce_list(args.drop_first(), row) {
                Ok(t) => Ok(seq![h] + t),
                Err(e) => Err(e),
            },
            Err(e) => Err(e),
        }
    }
}

/// The aggregate nodes of a tree replaced, left to right, by the finished
/// values, starting at position `k` of the value list; nodes beyond the list
/// stay. Yields the rewritten tree and the next position.
pub open spec fn spec_replace_aggs(r: RecipeV, vals: Seq<ValueV>, k: int) -> (RecipeV, int)
    decreases r, 1int,
{
    match r {
        RecipeV::Value(_) => (r, k),
        RecipeV::Column(_) => (r, k),
        RecipeV::Unary(op, a) => {
            let (ra, ka) = spec_replace_aggs(*a, vals, k);
            (RecipeV::Unary(op, Box::new(ra)), ka)
        },
        RecipeV::Binary(op, a, b) => {
            let (ra, ka) = spec_replace_aggs(*a, vals, k);
            let (rb, kb) = spec_replace_aggs(*b, vals, ka);
            (RecipeV::Binary(op, Box::new(ra), Box::new(rb)), kb)
        },
        RecipeV::Function(kind, args) => {
            let (rargs, ka) = spec_replace_aggs_list(args, vals, k);
            (RecipeV::Function(kind, rargs), ka)
        },
        RecipeV::Aggregate(_, _) => {
            if 0 <= k < vals.len() {
                (RecipeV::Value(vals[k]), k + 1)
            } else {
                (r, k)
            }
        },
    }
}

/// Aggregate replacement over a list of children, left to right.
pub open spec fn spec_replace_aggs_list(args: Seq<RecipeV>, vals: Seq<ValueV>, k: int) -> (
    Seq<RecipeV>,
    int,
)
    decreases args, 0int,
{
    if args.len() == 0 {
        (Seq::empty(), k)
    } else {
        let (h, kh) = spec_replace_aggs(args[0], vals, k);
        let (t, kt) = spec_replace_aggs_list(args.drop_first(), vals, kh);
        (seq![h] + t, kt)
    }
}

/// What `simplify` yields for each mode: Basic folds constants, Row also
/// resolves column references from the condensed row, CompletedAggregate
/// first substitutes the finished aggregate values and then folds.
pub open spec fn spec_simplify(r: RecipeV, by: SimplifyBy) -> Result<RecipeV, ErrorV> {
    match by {
        SimplifyBy::Basic => spec_reduce(r, None),
        SimplifyBy::Row(row) => spec_reduce(r, Some(vals_view(row@))),
        SimplifyBy::CompletedAggregate(vals) => spec_reduce(
            spec_replace_aggs(r, vals_view(vals@), 0).0,
            None,
        ),
    }
}

/// The value of a tree that is a single resolved ingredient.
pub open spec fn spec_as_solution(r: RecipeV) -> Option<ValueV> {
    match r {
        RecipeV::Value(v) => Some(v),
        _ => None,
    }
}

impl Clone for Recipe {
    #[verifier::loop_isolation(false)]
    fn clone(&self) -> (r: Self)
        ensures
            r@ == self@,
        decreases *self,
    {
        broadcast use lemma_recipe_list_view;

        match self {
            Recipe::Ingredient(Ingredient::Value(v)) => Recipe::Ingredient(
                Ingredient::Value(v.clone()),
            ),
            Recipe::Ingredient(Ingredient::Column(i)) => Recipe::Ingredient(
                Ingredient::Column(*i),
            ),
            Recipe::Method(m) => {
                let method: Method = match &**m {
                    Method::UnaryOperation(op, a) => Method::UnaryOperation(*op, a.clone()),
                    Method::BinaryOperation(op, a, b) => Method::BinaryOperation(
                        *op,
                        a.clone(),
                        b.clone(),
                    ),
                    Method::Function(kind, args) => {
                        let mut out: Vec<Recipe> = Vec::new();
                        let mut j: usize = 0;
                        while j < args.len()
                            invariant
                                j <= args.len(),
                                out@.len() == j,
                                forall|i: int| 0 <= i < j ==> out@[i]@ == args@[i]@,
                            decreases args.len() - j,
                        {
                            proof {
                                let inner = **m;
                                assert(decreases_to!(*self => inner));
                                assert(decreases_to!(inner => *args));
                                assert(decreases_to!(*args => args@));
                                assert(decreases_to!(args@ => args@[j as int]));
                                assert(decreases_to!(*self => args@[j as int]));
                            }
                            let c = args[j].clone();
                            out.push(c);
                            j = j + 1;
                        }
                        proof {
                            lemma_recipe_list_view(out@);
                            lemma_recipe_list_view(args@);
                            assert(recipe_list_view(out@) =~= recipe_list_view(args@));
                        }
                        Method::Function(*kind, out)
                    },
                    Method::Aggregate(op, a) => Method::Aggregate(*op, a.clone()),
                };
                Recipe::Method(Box::new(method))
            },
        }
    }
}

impl Recipe {
    /// The tree that is the boolean literal `TRUE`.
    pub fn true_recipe() -> (r: Self)
        ensures
            r@ == RecipeV::Value(ValueV::Bool(true)),
    {
        Recipe::Ingredient(Ingredient::Value(Value::Bool(true)))
    }

    /// The tree that is the literal null.
    pub fn null_recipe() -> (r: Self)
        ensures
            r@ == RecipeV::Value(ValueV::Null),
    {
        Recipe::Ingredient(Ingredient::Value(Value::Null))
    }

    /// The tree that is a bare reference to its first (and only) column.
    pub fn single_column() -> (r: Self)
        ensures
            r@ == RecipeV::Column(0),
    {
        Recipe::Ingredient(Ingredient::Column(0))
    }

    /// The value of this tree, when it is a single resolved ingredient.
    pub fn as_solution(&self) -> (r: Option<Value>)
        ensures
            match r {
                Some(v) => spec_as_solution(self@) == Some(v@),
                None => spec_as_solution(self@) is None,
            },
    {
        match self {
            Recipe::Ingredient(Ingredient::Value(v)) => Some(v.clone()),
            _ => None,
        }
    }

    /// The value of this tree, or the given error when it is still
    /// unresolved.
    pub fn confirm_or_err(&self, error: Error) -> (r: Result<Value, Error>)
        ensures
            match r {
                Ok(v) => spec_as_solution(self@) == Some(v@),
                Err(e) => spec_as_solution(self@) is None && e == error,
            },
    {
        match self.as_solution() {
            Some(v) => Ok(v),
            None => Err(error),
        }
    }

    /// One bottom-up simplification pass; `row`, when given, resolves column
    /// references.
    #[verifier::loop_isolation(false)]
    fn reduce(&self, row: Option<&Vec<Value>>) -> (r: Result<Recipe, Error>)
        ensures
            crate::error::res_view(r) == spec_reduce(self@, opt_row_view(row)),
        decreases *self,
    {
        broadcast use lemma_recipe_list_view;

        match self {
            Recipe::Ingredient(Ingredient::Value(v)) => Ok(
                Recipe::Ingredient(Ingredient::Value(v.clone())),
            ),
            Recipe::Ingredient(Ingredient::Column(i)) => match row {
                Some(vals) => if *i < vals.len() {
                    Ok(Recipe::Ingredient(Ingredient::Value(vals[*i].clone())))
                } else {
                    Ok(Recipe::Ingredient(Ingredient::Column(*i)))
                },
                None => Ok(Recipe::Ingredient(Ingredient::Column(*i))),
            },
            Recipe::Method(m) => {
                proof {
                    let inner = **m;
                    assert(decreases_to!(*self => inner));
                }
                match &**m {
                    Method::UnaryOperation(op, a) => match a.reduce(row) {
                        Ok(ra) => match ra {
                            Recipe::Ingredient(Ingredient::Value(v)) => match eval_unary(
                                *op,
                                &v,
                            ) {
                                Ok(w) => Ok(Recipe::Ingredient(Ingredient::Value(w))),
                                Err(e) => Err(e),
                            },
                            _ => Ok(
                                Recipe::Method(Box::new(Method::UnaryOperation(*op, ra))),
                            ),
                        },
                        Err(e) => Err(e),
                    },
                    Method::BinaryOperation(op, a, b) => match a.reduce(row) {
                        Ok(ra) => match b.reduce(row) {
                            Ok(rb) => match (ra, rb) {
                                (
                                    Recipe::Ingredient(Ingredient::Value(va)),
                                    Recipe::Ingredient(Ingredient::Value(vb)),
                                ) => match eval_binary(*op, &va, &vb) {
                                    Ok(w) => Ok(Recipe::Ingredient(Ingredient::Value(w))),
                                    Err(e) => Err(e),
                                },
                                (ra, rb) => Ok(
                                    Recipe::Method(
                                        Box::new(Method::BinaryOperation(*op, ra, rb)),
                                    ),
                                ),
                            },
                            Err(e) => Err(e),
                        },
                        Err(e) => Err(e),
                    },
                    Method::Function(kind, args) => {
                        let ghost rowv = opt_row_view(row);
                        let ghost argsv = recipe_list_view(args@);
                        proof {
                            lemma_recipe_list_view(args@);
                        }
                        let mut out: Vec<Recipe> = Vec::new();
                        let mut j: usize = 0;
                        proof {
                            assert(argsv.skip(0) =~= argsv);
                            assert(recipe_list_view(out@) =~= Seq::<RecipeV>::empty());
                        }
                        while j < args.len()
                            invariant
                                j <= args.len(),
                                out@.len() == j,
                                spec_reduce_list(argsv, rowv) == match spec_reduce_list(
                                    argsv.skip(j as int),
                                    rowv,
                                ) {
                                    Ok(t) => Ok::<Seq<RecipeV>, ErrorV>(
                                        recipe_list_view(out@) + t,
                                    ),
                                    Err(e) => Err::<Seq<RecipeV>, ErrorV>(e),
                                },
                            decreases args.len() - j,
                        {
                            proof {
                                let inner = **m;
                                assert(decreases_to!(*self => inner));
                                assert(decreases_to!(inner => *args));
                                assert(decreases_to!(*args => args@));
                                assert(decreases_to!(args@ => args@[j as int]));
                                assert(decreases_to!(*self => args@[j as int]));
                                assert(argsv.skip(j as int)[0] == argsv[j as int]);
                            }
                            match args[j].reduce(row) {
                                Ok(h) => {
                                    let ghost hv = h@;
                                    let ghost old_out = out@;
                                    out.push(h);
                                    proof {
                                        assert(argsv.skip(j as int).drop_first() =~= argsv.skip(
                                            j as int + 1,
                                        ));
                                        assert(recipe_list_view(out@) =~= recipe_list_view(
                                            old_out,
                                        ) + seq![hv]);
                                        assert(spec_reduce(argsv[j as int], rowv) == Ok::<
                                            RecipeV,
                                            ErrorV,
                                        >(hv));
                                        match spec_reduce_list(argsv.skip(j as int + 1), rowv) {
                                            Ok(t) => {
                                                assert(spec_reduce_list(
                                                    argsv.skip(j as int),
                                                    rowv,
                                                ) == Ok::<Seq<RecipeV>, ErrorV>(seq![hv] + t));
                                                assert(recipe_list_view(old_out) + (seq![hv]
                                                    + t) =~= recipe_list_view(out@) + t);
                                            },
                                            Err(_) => {},
                                        }
                                    }
                                },
                                Err(e) => {
                                    return Err(e);
                                },
                            }
                            j = j + 1;
                        }
                        proof {
                            assert(argsv.skip(j as int) =~= Seq::<RecipeV>::empty());
                        }
                        // Collect the children's values when every one of
                        // them resolved.
                        let mut vals: Vec<Value> = Vec::new();
                        let mut all = true;
                        let mut k: usize = 0;
                        while k < out.len() && all
                            invariant
                                k <= out@.len(),
                                all ==> vals@.len() == k,
                                all ==> forall|i: int|
                                    0 <= i < k ==> recipe_list_view(out@)[i] is Value,
                                all ==> forall|i: int|
                                    0 <= i < k ==> vals@[i]@ == value_of(
                                        recipe_list_view(out@)[i],
                                    ),
                                !all ==> !all_values(recipe_list_view(out@)),
                            decreases out@.len() - k,
                        {
                            match &out[k] {
                                Recipe::Ingredient(Ingredient::Value(v)) => {
                                    vals.push(v.clone());
                                    proof {
                                        assert(recipe_list_view(out@)[k as int] == out@[
                                            k as int]@);
                                    }
                                },
                                _ => {
                                    all = false;
                                    proof {
                                        assert(recipe_list_view(out@)[k as int] == out@[
                                            k as int]@);
                                        assert(!(out@[k as int]@ is Value));
                                        assert(!all_values(recipe_list_view(out@)));
                                    }
                                },
                            }
                            k = k + 1;
                        }
                        if all {
                            proof {
                                assert(all_values(recipe_list_view(out@)));
                                assert(vals_view(vals@) =~= values_of(recipe_list_view(out@)));
                            }
                            match Value::apply_function(*kind, vals) {
                                Ok(w) => Ok(Recipe::Ingredient(Ingredient::Value(w))),
                                Err(e) => Err(e),
                            }
                        } else {
                            Ok(Recipe::Method(Box::new(Method::Function(*kind, out))))
                        }
                    },
                    Method::Aggregate(op, a) => match a.reduce(row) {
                        Ok(ra) => Ok(Recipe::Method(Box::new(Method::Aggregate(*op, ra)))),
                        Err(e) => Err(e),
                    },
                }
            },
        }
    }

    /// The aggregate nodes of this tree replaced, left to right, by the
    /// finished values starting at position `k`.
    #[verifier::loop_isolation(false)]
    fn replace_aggs(&self, vals: &Vec<Value>, k: usize) -> (r: (Recipe, usize))
        requires
            k <= vals@.len(),
        ensures
            (r.0@, r.1 as int) == spec_replace_aggs(self@, vals_view(vals@), k as int),
            r.1 <= vals@.len(),
        decreases *self,
    {
        broadcast use lemma_recipe_list_view;

        match self {
            Recipe::Ingredient(Ingredient::Value(v)) => (
                Recipe::Ingredient(Ingredient::Value(v.clone())),
                k,
            ),
            Recipe::Ingredient(Ingredient::Column(i)) => (
                Recipe::Ingredient(Ingredient::Column(*i)),
                k,
            ),
            Recipe::Method(m) => {
                proof {
                    let inner = **m;
                    assert(decreases_to!(*self => inner));
                }
                match &**m {
                    Method::UnaryOperation(op, a) => {
                        let (ra, ka) = a.replace_aggs(vals, k);
                        (Recipe::Method(Box::new(Method::UnaryOperation(*op, ra))), ka)
                    },
                    Method::BinaryOperation(op, a, b) => {
                        let (ra, ka) = a.replace_aggs(vals, k);
                        let (rb, kb) = b.replace_aggs(vals, ka);
                        (Recipe::Method(Box::new(Method::BinaryOperation(*op, ra, rb))), kb)
                    },
                    Method::Function(kind, args) => {
                        let ghost valsv = vals_view(vals@);
                        let ghost argsv = recipe_list_view(args@);
                        proof {
                            lemma_recipe_list_view(args@);
                        }
                        let mut out: Vec<Recipe> = Vec::new();
                        let mut cur: usize = k;
                        let mut j: usize = 0;
                        proof {
                            assert(argsv.skip(0) =~= argsv);
                            assert(recipe_list_view(out@) =~= Seq::<RecipeV>::empty());
                        }
                        while j < args.len()
                            invariant
                                j <= args.len(),
                                out@.len() == j,
                                cur <= vals@.len(),
                                spec_replace_aggs_list(argsv, valsv, k as int)
                                    == (recipe_list_view(out@) + spec_replace_aggs_list(
                                    argsv.skip(j as int),
                                    valsv,
                                    cur as int,
                                ).0, spec_replace_aggs_list(
                                    argsv.skip(j as int),
                                    valsv,
                                    cur as int,
                                ).1),
                            decreases args.len() - j,
                        {
                            proof {
                                let inner = **m;
                                assert(decreases_to!(*self => inner));
                                assert(decreases_to!(inner => *args));
                                assert(decreases_to!(*args => args@));
                                assert(decreases_to!(args@ => args@[j as int]));
                                assert(decreases_to!(*self => args@[j as int]));
                                assert(argsv.skip(j as int)[0] == argsv[j as int]);
                            }
                            let (h, kh) = args[j].replace_aggs(vals, cur);
                            let ghost old_out = out@;
                            out.push(h);
                            cur = kh;
                            proof {
                                lemma_recipe_list_view(out@);
                                lemma_recipe_list_view(old_out);
                                assert(argsv.skip(j as int).drop_first() =~= argsv.skip(
                                    j as int + 1,
                                ));
                                assert(out@.drop_last() =~= old_out);
                                assert(recipe_list_view(out@) =~= recipe_list_view(
                                    old_out,
                                ).push(out@[j as int]@));
                                assert(recipe_list_view(old_out).push(out@[j as int]@)
                                    =~= recipe_list_view(old_out) + seq![out@[j as int]@]);
                            }
                            j = j + 1;
                        }
                        proof {
                            assert(argsv.skip(j as int) =~= Seq::<RecipeV>::empty());
                            assert(recipe_list_view(out@) + Seq::<RecipeV>::empty()
                                =~= recipe_list_view(out@));
                        }
                        (Recipe::Method(Box::new(Method::Function(*kind, out))), cur)
                    },
                    Method::Aggregate(op, a) => {
                        if k < vals.len() {
                            (
                                Recipe::Ingredient(Ingredient::Value(vals[k].clone())),
                                k + 1,
                            )
                        } else {
                            let c = a.clone();
                            (Recipe::Method(Box::new(Method::Aggregate(*op, c))), k)
                        }
                    },
                }
            },
        }
    }

    /// One simplification in the given mode.
    pub fn simplify(self, by: &SimplifyBy) -> (r: Result<Recipe, Error>)
        ensures
            match by {
                SimplifyBy::Basic => crate::error::res_view(r) == spec_reduce(self@, None),
                SimplifyBy::Row(row) => crate::error::res_view(r) == spec_reduce(
                    self@,
                    Some(vals_view(row@)),
                ),
                SimplifyBy::CompletedAggregate(vals) => crate::error::res_view(r) == spec_reduce(
                    spec_replace_aggs(self@, vals_view(vals@), 0).0,
                    None,
                ),
            },
    {
        match by {
            SimplifyBy::Basic => self.reduce(None),
            SimplifyBy::Row(row) => self.reduce(Some(row)),
            SimplifyBy::CompletedAggregate(vals) => {
                let (rep, _next) = self.replace_aggs(vals, 0);
                rep.reduce(None)
            },
        }
    }
}

impl Value {
    /// Dispatches a function kind to its implementation.
    pub fn apply_function(kind: FunctionKind, args: Vec<Value>) -> (r: Result<Value, Error>)
        ensures
            crate::error::res_view(r) == spec_apply_function(kind, vals_view(args@)),
    {
        match kind {
            FunctionKind::IfNull => Value::function_if_null(args),
            FunctionKind::NullIf => Value::function_null_if(args),
            FunctionKind::Iif => Value::function_iif(args),
            FunctionKind::ToLowercase => Value::function_to_lowercase(args),
            FunctionKind::ToUppercase => Value::function_to_uppercase(args),
            FunctionKind::Left => Value::function_left(args),
            FunctionKind::Right => Value::function_right(args),
            FunctionKind::Length => Value::function_length(args),
            FunctionKind::Concat => Value::function_concat(args),
            FunctionKind::Replace => Value::function_replace(args),
            FunctionKind::Year => Value::function_year(args),
            FunctionKind::Month => Value::function_month(args),
            FunctionKind::Day => Value::function_day(args),
            FunctionKind::Hour => Value::function_hour(args),
            FunctionKind::DateAdd => Value::function_date_add(args),
            FunctionKind::DateFromParts => Value::function_date_from_parts(args),
            FunctionKind::Round => Value::function_round(args),
            FunctionKind::Pow => Value::function_pow(args),
            FunctionKind::Convert => Value::function_convert(args),
            FunctionKind::TryConvert => Value::function_try_convert(args),
        }
    }
}

} // verus!
