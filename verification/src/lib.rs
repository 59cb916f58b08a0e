//! An embeddable SQL expression-evaluation core.
//!
//! The crate owns everything between parsing and storage: binding expression
//! trees to column positions, evaluating them against rows, planning which
//! tables a join constraint needs, and assembling and validating rows on the
//! insert path. The upstream statement parser and the storage backends are
//! collaborators outside this crate; they exchange plain values with it.

pub mod calendar;
pub mod error;
pub mod fbits;
pub mod functions;
pub mod insert;
pub mod join;
pub mod laws;
pub mod meta;
pub mod ops;
pub mod planned;
pub mod recipe;
pub mod row;
pub mod text;
pub mod types;
pub mod value;

pub use error::{AlterTableError, Error, InsertError, RecipeError, RowError, ValueError};
pub use functions::FunctionKind;
pub use insert::{columns_to_positions, validate};
pub use join::{JoinPlan, JoinType};
pub use meta::{MetaRecipe, RecipeMeta};
pub use ops::{AggregateOperator, BinaryOperator, UnaryOperator};
pub use planned::PlannedRecipe;
pub use recipe::{Ingredient, Method, Recipe, SimplifyBy};
pub use row::{ColumnDefinition, Row};
pub use types::{ColumnInfo, ComplexTableName};
pub use value::{DataType, Value};
