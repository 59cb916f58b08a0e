use multisql::{
    ColumnDefinition, ColumnInfo, ComplexTableName, DataType, Error, Ingredient, InsertError,
    JoinPlan, JoinType, MetaRecipe, Recipe, RecipeMeta, Row, RowError, Value, ValueError,
};

fn lit(v: Value) -> Recipe {
    Recipe::Ingredient(Ingredient::Value(v))
}

fn def(name: &str, data_type: DataType, nullable: bool) -> ColumnDefinition {
    ColumnDefinition {
        name: String::from(name),
        data_type,
        nullable,
        default: None,
        auto_increment: false,
    }
}

fn names(segments: &[&str]) -> Vec<String> {
    segments.iter().map(|s| String::from(*s)).collect()
}

fn column(table: &str, name: &str) -> ColumnInfo {
    ColumnInfo {
        table: ComplexTableName {
            database: String::from("db"),
            alias: None,
            name: String::from(table),
        },
        name: String::from(name),
        index: None,
    }
}

#[test]
fn too_many_values_fails() {
    let defs = vec![def("a", DataType::Int, false)];
    let e = Row::new(&defs, &names(&[]), &vec![lit(Value::I64(1)), lit(Value::I64(2))], false)
        .unwrap_err();
    assert!(matches!(e, Error::Row(RowError::TooManyValues)));
}

#[test]
fn missing_required_column_fails() {
    let defs = vec![def("a", DataType::Int, false), def("b", DataType::Int, false)];
    let e = Row::new(&defs, &names(&["a"]), &vec![lit(Value::I64(1))], false).unwrap_err();
    match e {
        Error::Row(RowError::LackOfRequiredColumn(name)) => {
            assert_eq!(name, String::from("b"));
        },
        other => panic!("unexpected error: {:?}", other),
    }
}

#[test]
fn stated_column_without_value_fails() {
    let defs = vec![def("a", DataType::Int, false), def("b", DataType::Int, false)];
    let e = Row::new(&defs, &names(&["a", "b"]), &vec![lit(Value::I64(1))], false).unwrap_err();
    match e {
        Error::Row(RowError::LackOfRequiredValue(name)) => {
            assert_eq!(name, String::from("b"));
        },
        other => panic!("unexpected error: {:?}", other),
    }
}

#[test]
fn positional_row_assembles_in_order() {
    let defs = vec![def("a", DataType::Int, false), def("b", DataType::Text, false)];
    let row = Row::new(
        &defs,
        &names(&[]),
        &vec![lit(Value::I64(1)), lit(Value::Str(String::from("x")))],
        false,
    )
    .unwrap();
    assert_eq!(row.get_value(0), Some(&Value::I64(1)));
    assert_eq!(row.get_value(1), Some(&Value::Str(String::from("x"))));
    assert_eq!(row.get_value(2), None);
}

#[test]
fn named_row_reorders_values() {
    let defs = vec![def("a", DataType::Int, false), def("b", DataType::Int, false)];
    let row = Row::new(
        &defs,
        &names(&["b", "a"]),
        &vec![lit(Value::I64(10)), lit(Value::I64(20))],
        false,
    )
    .unwrap();
    assert_eq!(row.get_value(0), Some(&Value::I64(20)));
    assert_eq!(row.get_value(1), Some(&Value::I64(10)));
}

#[test]
fn defaults_fill_unstated_columns() {
    let defs = vec![
        def("a", DataType::Int, false),
        ColumnDefinition {
            name: String::from("b"),
            data_type: DataType::Int,
            nullable: false,
            default: Some(lit(Value::I64(7))),
            auto_increment: false,
        },
    ];
    let row = Row::new(&defs, &names(&["a"]), &vec![lit(Value::I64(1))], false).unwrap();
    assert_eq!(row.get_value(1), Some(&Value::I64(7)));
}

#[test]
fn auto_increment_takes_a_placeholder() {
    let defs = vec![
        ColumnDefinition {
            name: String::from("id"),
            data_type: DataType::Int,
            nullable: false,
            default: None,
            auto_increment: true,
        },
        def("a", DataType::Int, false),
    ];
    // The auto-incremented column is not stated: it takes the placeholder.
    let row = Row::new(&defs, &names(&["a"]), &vec![lit(Value::I64(9))], true).unwrap();
    assert_eq!(row.get_value(0), Some(&Value::Null));
    assert_eq!(row.get_value(1), Some(&Value::I64(9)));
    // An explicit null also yields the placeholder while the feature is on.
    let row = Row::new(
        &defs,
        &names(&["id", "a"]),
        &vec![lit(Value::Null), lit(Value::I64(9))],
        true,
    )
    .unwrap();
    assert_eq!(row.get_value(0), Some(&Value::Null));
    // With the feature off the same insert is missing its column.
    let e = Row::new(&defs, &names(&["a"]), &vec![lit(Value::I64(9))], false).unwrap_err();
    assert!(matches!(e, Error::Row(RowError::LackOfRequiredColumn(_))));
}

#[test]
fn type_and_null_violations_fail_the_row() {
    let defs = vec![def("a", DataType::Int, false)];
    let e = Row::new(&defs, &names(&[]), &vec![lit(Value::Bool(true))], false).unwrap_err();
    assert!(matches!(e, Error::Value(ValueError::IncompatibleDataType)));
    let e = Row::new(&defs, &names(&[]), &vec![lit(Value::Null)], false).unwrap_err();
    assert!(matches!(e, Error::Value(ValueError::NullValueOnNotNullField)));
}

#[test]
fn validate_checks_each_declared_position() {
    let defs = vec![def("a", DataType::Boolean, false), def("b", DataType::Int, true)];
    let good = Row(vec![Value::Bool(false), Value::Null]);
    assert!(good.validate(&defs).is_ok());
    let bad_type = Row(vec![Value::I64(1), Value::Null]);
    assert!(matches!(
        bad_type.validate(&defs).unwrap_err(),
        Error::Value(ValueError::IncompatibleDataType)
    ));
    let bad_null = Row(vec![Value::Null, Value::Null]);
    assert!(matches!(
        bad_null.validate(&defs).unwrap_err(),
        Error::Value(ValueError::NullValueOnNotNullField)
    ));
}

#[test]
fn take_first_value_of_empty_row_conflicts() {
    let row = Row(vec![]);
    assert!(matches!(
        row.take_first_value().unwrap_err(),
        Error::Row(RowError::ConflictOnEmptyRow)
    ));
    let row = Row(vec![Value::I64(9)]);
    assert_eq!(row.take_first_value().unwrap(), Value::I64(9));
}

#[test]
fn columns_to_positions_maps_names() {
    let defs = vec![def("a", DataType::Int, false), def("b", DataType::Int, false)];
    let pos = multisql::insert::columns_to_positions(&defs, &names(&["b", "a"])).unwrap();
    assert_eq!(pos, vec![1, 0]);
    let all = multisql::insert::columns_to_positions(&defs, &names(&[])).unwrap();
    assert_eq!(all, vec![0, 1]);
    let e = multisql::insert::columns_to_positions(&defs, &names(&["c"])).unwrap_err();
    match e {
        Error::Insert(InsertError::ColumnNotFound(name)) => {
            assert_eq!(name, String::from("c"))
        },
        other => panic!("unexpected error: {:?}", other),
    }
}

#[test]
fn insert_validate_completes_rows() {
    let defs = vec![
        def("a", DataType::Int, false),
        ColumnDefinition {
            name: String::from("b"),
            data_type: DataType::Int,
            nullable: false,
            default: Some(lit(Value::I64(5))),
            auto_increment: false,
        },
        def("c", DataType::Int, true),
    ];
    let rows = vec![vec![Value::I64(1)], vec![Value::I64(2)]];
    let out = multisql::insert::validate(&defs, &vec![0], rows, false).unwrap();
    assert_eq!(
        out,
        vec![
            vec![Value::I64(1), Value::I64(5), Value::Null],
            vec![Value::I64(2), Value::I64(5), Value::Null],
        ]
    );
}

#[test]
fn insert_validate_rejects_ragged_rows() {
    let defs = vec![def("a", DataType::Int, false)];
    let rows = vec![vec![Value::I64(1)], vec![Value::I64(1), Value::I64(2)]];
    let e = multisql::insert::validate(&defs, &vec![0], rows, false).unwrap_err();
    assert!(matches!(e, Error::Insert(InsertError::WrongNumberOfValues)));
}

#[test]
fn insert_validate_requires_a_value_or_fallback() {
    let defs = vec![def("a", DataType::Int, false), def("b", DataType::Int, false)];
    let e = multisql::insert::validate(&defs, &vec![0], vec![vec![Value::I64(1)]], false)
        .unwrap_err();
    assert!(matches!(e, Error::Insert(InsertError::MissingValue)));
}

#[test]
fn insert_validate_checks_stated_values() {
    let defs = vec![def("a", DataType::Int, false)];
    let e = multisql::insert::validate(&defs, &vec![0], vec![vec![Value::Null]], false)
        .unwrap_err();
    assert!(matches!(e, Error::Value(ValueError::NullValueOnNotNullField)));
    let e = multisql::insert::validate(&defs, &vec![0], vec![vec![Value::Bool(true)]], false)
        .unwrap_err();
    assert!(matches!(e, Error::Value(ValueError::IncompatibleDataType)));
}

#[test]
fn needed_tables_are_exactly_the_referenced_ones() {
    // Constraint: a.x = b.y, with tables a, b and an unrelated c in the query.
    let mut meta = RecipeMeta::new();
    let ax = meta.column_recipe(names(&["a", "x"]));
    let by = meta.column_recipe(names(&["b", "y"]));
    let recipe = Recipe::Method(Box::new(multisql::Method::BinaryOperation(
        multisql::BinaryOperator::Eq,
        ax,
        by,
    )));
    let constraint = MetaRecipe { recipe, meta };
    let mut plan = JoinPlan::new(
        String::from("db"),
        String::from("b"),
        vec![column("b", "y")],
        JoinType::Inner,
        constraint,
    );
    let table_columns = vec![
        vec![column("a", "x")],
        vec![column("b", "y")],
        vec![column("c", "z")],
    ];
    plan.calculate_needed_tables(&table_columns);
    assert_eq!(plan.needed_tables, vec![0, 1]);
}

#[test]
fn join_types_order_by_strictness() {
    assert!(JoinType::Inner.precedes(&JoinType::Left));
    assert!(JoinType::Left.precedes(&JoinType::Full));
    assert!(!JoinType::Full.precedes(&JoinType::Inner));
    assert!(!JoinType::Inner.precedes(&JoinType::Inner));
}
