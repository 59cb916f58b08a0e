use multisql::{
    AggregateOperator, BinaryOperator, ColumnInfo, ComplexTableName, Error, FunctionKind,
    Ingredient, MetaRecipe, Method, PlannedRecipe, Recipe, RecipeError, RecipeMeta, SimplifyBy,
    UnaryOperator, Value,
};

fn lit(v: Value) -> Recipe {
    Recipe::Ingredient(Ingredient::Value(v))
}

fn binary(op: BinaryOperator, a: Recipe, b: Recipe) -> Recipe {
    Recipe::Method(Box::new(Method::BinaryOperation(op, a, b)))
}

fn call(kind: FunctionKind, args: Vec<Recipe>) -> Recipe {
    Recipe::Method(Box::new(Method::Function(kind, args)))
}

fn column(table: &str, alias: Option<&str>, name: &str) -> ColumnInfo {
    ColumnInfo {
        table: ComplexTableName {
            database: String::from("db"),
            alias: alias.map(String::from),
            name: String::from(table),
        },
        name: String::from(name),
        index: None,
    }
}

fn object(segments: &[&str]) -> Vec<String> {
    segments.iter().map(|s| String::from(*s)).collect()
}

#[test]
fn constant_tree_simplifies_to_its_value() {
    let tree = binary(
        BinaryOperator::Plus,
        lit(Value::I64(2)),
        binary(BinaryOperator::Multiply, lit(Value::I64(3)), lit(Value::I64(4))),
    );
    let folded = tree.simplify(&SimplifyBy::Basic).unwrap();
    assert_eq!(folded.as_solution().unwrap(), Value::I64(14));
}

#[test]
fn basic_simplify_is_idempotent() {
    let tree = call(
        FunctionKind::Concat,
        vec![lit(Value::Str(String::from("a"))), lit(Value::Str(String::from("b")))],
    );
    let once = tree.simplify(&SimplifyBy::Basic).unwrap();
    let first = once.as_solution().unwrap();
    let twice = once.simplify(&SimplifyBy::Basic).unwrap();
    assert_eq!(twice.as_solution().unwrap(), first);
    assert_eq!(first, Value::Str(String::from("ab")));
}

#[test]
fn value_literal_round_trips() {
    let tree = lit(Value::I64(42));
    let folded = tree.simplify(&SimplifyBy::Basic).unwrap();
    assert_eq!(folded.as_solution().unwrap(), Value::I64(42));
}

#[test]
fn null_comparison_is_not_true() {
    // IIF(NULL = 0, 0, 1) takes the false branch: the comparison yields
    // null, and null is not true.
    let cond = binary(BinaryOperator::Eq, lit(Value::Null), lit(Value::I64(0)));
    let tree = call(FunctionKind::Iif, vec![cond, lit(Value::I64(0)), lit(Value::I64(1))]);
    let folded = tree.simplify(&SimplifyBy::Basic).unwrap();
    assert_eq!(folded.as_solution().unwrap(), Value::I64(1));
}

#[test]
fn unary_minus_folds() {
    let tree = Recipe::Method(Box::new(Method::UnaryOperation(
        UnaryOperator::Minus,
        lit(Value::I64(7)),
    )));
    let folded = tree.simplify(&SimplifyBy::Basic).unwrap();
    assert_eq!(folded.as_solution().unwrap(), Value::I64(-7));
}

#[test]
fn division_errors_surface() {
    let tree = binary(BinaryOperator::Divide, lit(Value::I64(1)), lit(Value::I64(0)));
    let e = tree.simplify(&SimplifyBy::Basic).unwrap_err();
    assert!(matches!(
        e,
        Error::Value(multisql::ValueError::DivisionByZero)
    ));
}

#[test]
fn column_reference_waits_for_its_row() {
    let mut meta = RecipeMeta::new();
    let col = meta.column_recipe(object(&["t", "a"]));
    let tree = binary(BinaryOperator::Eq, col, lit(Value::I64(3)));
    // Basic mode leaves the reference untouched.
    let still = tree.simplify(&SimplifyBy::Basic).unwrap();
    assert!(still.as_solution().is_none());
    // A row resolves it.
    let folded = still.simplify(&SimplifyBy::Row(vec![Value::I64(3)])).unwrap();
    assert_eq!(folded.as_solution().unwrap(), Value::Bool(true));
}

#[test]
fn column_references_are_deduplicated() {
    let mut meta = RecipeMeta::new();
    let a1 = meta.column_recipe(object(&["t", "a"]));
    let b = meta.column_recipe(object(&["t", "b"]));
    let a2 = meta.column_recipe(object(&["t", "a"]));
    assert_eq!(meta.columns.len(), 2);
    assert!(matches!(a1, Recipe::Ingredient(Ingredient::Column(0))));
    assert!(matches!(b, Recipe::Ingredient(Ingredient::Column(1))));
    assert!(matches!(a2, Recipe::Ingredient(Ingredient::Column(0))));
    assert_eq!(meta.objects.len(), 3);
}

#[test]
fn true_constraint_confirms_every_row() {
    let plan = PlannedRecipe::true_filter();
    assert_eq!(plan.confirm_constraint(&vec![]).unwrap(), true);
    assert_eq!(
        plan.confirm_constraint(&vec![Value::I64(1), Value::Null]).unwrap(),
        true
    );
}

#[test]
fn constraint_matches_rows_by_column() {
    let mut meta = RecipeMeta::new();
    let col = meta.column_recipe(object(&["t", "a"]));
    let recipe = binary(BinaryOperator::Gt, col, lit(Value::I64(10)));
    let planned = PlannedRecipe::new(
        MetaRecipe { recipe, meta },
        &vec![column("t", None, "a"), column("t", None, "b")],
    )
    .unwrap();
    assert_eq!(planned.confirm_constraint(&vec![Value::I64(11), Value::I64(0)]).unwrap(), true);
    assert_eq!(planned.confirm_constraint(&vec![Value::I64(9), Value::I64(99)]).unwrap(), false);
}

#[test]
fn missing_column_is_reported() {
    let mut meta = RecipeMeta::new();
    let recipe = meta.column_recipe(object(&["noname"]));
    let e = PlannedRecipe::new(
        MetaRecipe { recipe, meta },
        &vec![column("t", None, "a")],
    )
    .unwrap_err();
    match e {
        Error::Recipe(RecipeError::MissingColumn(name)) => {
            assert_eq!(name, vec![String::from("noname")]);
        },
        other => panic!("unexpected error: {:?}", other),
    }
}

#[test]
fn ambiguous_column_is_reported() {
    let mut meta = RecipeMeta::new();
    let recipe = meta.column_recipe(object(&["a"]));
    let e = PlannedRecipe::new(
        MetaRecipe { recipe, meta },
        &vec![column("t", None, "a"), column("u", None, "a")],
    )
    .unwrap_err();
    match e {
        Error::Recipe(RecipeError::AmbiguousColumn(name)) => {
            assert_eq!(name, vec![String::from("a")]);
        },
        other => panic!("unexpected error: {:?}", other),
    }
}

#[test]
fn alias_matches_where_table_name_does_not() {
    let aliased = column("table2", Some("t"), "col");
    let plain = column("table2", None, "col");
    assert!(aliased.matches_object(&object(&["t", "col"])));
    assert!(aliased.matches_object(&object(&["table2", "col"])));
    assert!(aliased.matches_object(&object(&["col"])));
    assert!(!plain.matches_object(&object(&["t", "col"])));
    assert!(plain.matches_object(&object(&["table2", "col"])));
}

#[test]
fn unresolved_constraint_is_fatal() {
    let plan = PlannedRecipe {
        recipe: Recipe::Ingredient(Ingredient::Column(4)),
        needed_column_indexes: vec![],
        aggregates: vec![],
    };
    let e = plan.confirm_constraint(&vec![Value::I64(1)]).unwrap_err();
    assert!(matches!(e, Error::Recipe(RecipeError::MissingComponents)));
}

#[test]
fn join_constraint_sees_both_rows() {
    // outer.a = inner.b, with outer holding one column and inner one more.
    let mut meta = RecipeMeta::new();
    let a = meta.column_recipe(object(&["outer", "a"]));
    let b = meta.column_recipe(object(&["inner", "b"]));
    let recipe = binary(BinaryOperator::Eq, a, b);
    let planned = PlannedRecipe::new(
        MetaRecipe { recipe, meta },
        &vec![column("outer", None, "a"), column("inner", None, "b")],
    )
    .unwrap();
    let outer_row = vec![Value::I64(5)];
    assert_eq!(
        planned.confirm_join_constraint(&outer_row, &vec![Value::I64(5)]).unwrap(),
        true
    );
    assert_eq!(
        planned.confirm_join_constraint(&outer_row, &vec![Value::I64(6)]).unwrap(),
        false
    );
}

#[test]
fn missing_row_positions_condense_to_null() {
    let plan = PlannedRecipe::of_index(3);
    // The row lacks position 3, so the condensed cell is null and the bare
    // column resolves to null: null is not the literal true.
    assert_eq!(plan.confirm_constraint(&vec![Value::I64(1)]).unwrap(), false);
}

#[test]
fn aggregation_runs_in_two_phases() {
    let mut meta = RecipeMeta::new();
    let arg = meta.column_recipe(object(&["t", "x"]));
    let sum = meta.aggregate_recipe(AggregateOperator::Sum, arg);
    let planned = PlannedRecipe::new(
        MetaRecipe { recipe: sum, meta },
        &vec![column("t", None, "x")],
    )
    .unwrap();

    let mut acc: Vec<Value> = vec![];
    for row in [vec![Value::I64(3)], vec![Value::I64(4)], vec![Value::Null]] {
        let per_row = planned.clone().simplify_by_row(&row).unwrap();
        acc = per_row.aggregate(acc).unwrap();
    }
    assert_eq!(acc, vec![Value::I64(7)]);

    let out = planned.solve_by_aggregate(acc).unwrap();
    assert_eq!(out, Value::I64(7));
}

#[test]
fn count_min_max_accumulate() {
    let mut meta = RecipeMeta::new();
    let x1 = meta.column_recipe(object(&["t", "x"]));
    let x2 = meta.column_recipe(object(&["t", "x"]));
    let x3 = meta.column_recipe(object(&["t", "x"]));
    let count = meta.aggregate_recipe(AggregateOperator::Count, x1);
    let min = meta.aggregate_recipe(AggregateOperator::Min, x2);
    let max = meta.aggregate_recipe(AggregateOperator::Max, x3);
    let recipe = binary(BinaryOperator::Plus, count, binary(BinaryOperator::Plus, min, max));
    let planned = PlannedRecipe::new(
        MetaRecipe { recipe, meta },
        &vec![column("t", None, "x")],
    )
    .unwrap();

    let mut acc: Vec<Value> = vec![];
    for v in [7i64, 3, 9] {
        let per_row = planned.clone().simplify_by_row(&vec![Value::I64(v)]).unwrap();
        acc = per_row.aggregate(acc).unwrap();
    }
    assert_eq!(acc, vec![Value::I64(3), Value::I64(3), Value::I64(9)]);
}

#[test]
fn labels_name_bare_columns_and_number_the_rest() {
    let cols = vec![column("t", None, "a")];
    let bare = PlannedRecipe::of_index(0);
    assert_eq!(bare.get_label(0, true, &cols), String::from("t.a"));
    assert_eq!(bare.get_label(0, false, &cols), String::from("a"));
    let expr = PlannedRecipe {
        recipe: lit(Value::I64(1)),
        needed_column_indexes: vec![],
        aggregates: vec![],
    };
    assert_eq!(expr.get_label(3, true, &cols), String::from("unnamed_3"));
    assert_eq!(expr.get_label(12, false, &cols), String::from("unnamed_12"));
}
