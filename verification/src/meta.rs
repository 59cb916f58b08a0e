//! Expression-tree metadata: the distinct column references a tree names,
//! and the aggregate sub-trees it contains.
//!
//! A tree is built leaf-up against one growing metadata record: each column
//! reference is deduplicated into the record's column list and becomes an
//! ingredient holding its position there, and each aggregate node is also
//! recorded in the record's aggregate list, in order of appearance.

use vstd::prelude::*;

use crate::ops::AggregateOperator;
use crate::recipe::{recipe_view, Ingredient, Method, Recipe, RecipeV};
use crate::types::{clone_object_name, object_name_view, object_names_eq};

verus! {

/// The metadata gathered while a tree is built: the distinct qualified
/// column references it names (in order of first appearance), the aggregate
/// sub-trees it contains (in order of appearance), and every object
/// reference seen (a non-column object is recorded as absent).
pub struct RecipeMeta {
    pub columns: Vec<Vec<String>>,
    pub aggregates: Vec<Recipe>,
    pub objects: Vec<Option<Vec<String>>>,
}

/// The image of a metadata record.
pub struct RecipeMetaV {
    pub columns: Seq<Seq<Seq<char>>>,
    pub aggregates: Seq<RecipeV>,
    pub objects: Seq<Option<Seq<Seq<char>>>>,
}

/// The images of a column-reference list.
pub open spec fn columns_view(cols: Seq<Vec<String>>) -> Seq<Seq<Seq<char>>> {
    cols.map_values(|o: Vec<String>| object_name_view(o@))
}

/// The images of an object-reference list.
pub open spec fn objects_view(objs: Seq<Option<Vec<String>>>) -> Seq<Option<Seq<Seq<char>>>> {
    objs.map_values(
        |o: Option<Vec<String>>|
            match o {
                Some(name) => Some(object_name_view(name@)),
                None => None,
            },
    )
}

/// The images of a list of trees.
pub open spec fn recipes_view(rs: Seq<Recipe>) -> Seq<RecipeV> {
    rs.map_values(|r: Recipe| recipe_view(r))
}

impl View for RecipeMeta {
    type V = RecipeMetaV;

    open spec fn view(&self) -> RecipeMetaV {
        RecipeMetaV {
            columns: columns_view(self.columns@),
            aggregates: recipes_view(self.aggregates@),
            objects: objects_view(self.objects@),
        }
    }
}

/// A tree together with the metadata gathered while it was built.
pub struct MetaRecipe {
    pub recipe: Recipe,
    pub meta: RecipeMeta,
}

impl RecipeMeta {
    /// An empty record.
    pub fn new() -> (r: Self)
        ensures
            r@.columns.len() == 0,
            r@.aggregates.len() == 0,
            r@.objects.len() == 0,
    {
        RecipeMeta { columns: Vec::new(), aggregates: Vec::new(), objects: Vec::new() }
    }

    /// Records a column reference and yields the ingredient for it: the
    /// reference is deduplicated into the column list, the ingredient holds
    /// its position there, and the reference is also appended to the object
    /// list.
    #[verifier::loop_isolation(false)]
    pub fn column_recipe(&mut self, name: Vec<String>) -> (r: Recipe)
        ensures
            final(self)@.objects == old(self)@.objects.push(Some(object_name_view(name@))),
            final(self)@.aggregates == old(self)@.aggregates,
    // the reference stands exactly once in the final column list, at the
    // position the ingredient holds

            ({
                let cols = old(self)@.columns;
                let namev = object_name_view(name@);
                if exists|i: int| 0 <= i < cols.len() && cols[i] == namev {
                    &&& final(self)@.columns == cols
                    &&& exists|i: int|
                        0 <= i < cols.len() && cols[i] == namev && r@ == RecipeV::Column(i)
                        && (forall|j: int| 0 <= j < i ==> cols[j] != namev)
                } else {
                    &&& final(self)@.columns == cols.push(namev)
                    &&& r@ == RecipeV::Column(cols.len() as int)
                }
            }),
    {
        let ghost old_cols = self@.columns;
        let ghost namev = object_name_view(name@);
        let mut i: usize = 0;
        let mut found: Option<usize> = None;
        while i < self.columns.len() && found.is_none()
            invariant
                i <= self.columns@.len(),
                old_cols == columns_view(self.columns@),
                match found {
                    Some(f) => f < i && old_cols[f as int] == namev && (forall|j: int|
                        0 <= j < f ==> old_cols[j] != namev),
                    None => forall|j: int| 0 <= j < i ==> old_cols[j] != namev,
                },
            decreases self.columns@.len() - i,
        {
            if object_names_eq(&self.columns[i], &name) {
                found = Some(i);
            }
            i = i + 1;
        }
        let ghost old_objects = self@.objects;
        match found {
            Some(f) => {
                self.objects.push(Some(name));
                proof {
                    assert(final(self)@.objects =~= old_objects.push(Some(namev)));
                    assert(exists|k: int|
                        0 <= k < old_cols.len() && old_cols[k] == namev && RecipeV::Column(
                            f as int,
                        ) == RecipeV::Column(k) && (forall|j: int|
                            0 <= j < k ==> old_cols[j] != namev));
                }
                Recipe::Ingredient(Ingredient::Column(f))
            },
            None => {
                let idx = self.columns.len();
                let copy = clone_object_name(&name);
                self.columns.push(copy);
                self.objects.push(Some(name));
                proof {
                    assert(final(self)@.columns =~= old_cols.push(namev));
                    assert(final(self)@.objects =~= old_objects.push(Some(namev)));
                }
                Recipe::Ingredient(Ingredient::Column(idx))
            },
        }
    }

    /// Records an object reference that is not a column.
    pub fn other_object(&mut self)
        ensures
            final(self)@.objects == old(self)@.objects.push(None),
            final(self)@.columns == old(self)@.columns,
            final(self)@.aggregates == old(self)@.aggregates,
    {
        let ghost old_objects = self@.objects;
        self.objects.push(None);
        proof {
            assert(final(self)@.objects =~= old_objects.push(None));
        }
    }

    /// Wraps a tree in an aggregate node and records that node.
    pub fn aggregate_recipe(&mut self, operator: AggregateOperator, argument: Recipe) -> (r:
        Recipe)
        ensures
            r@ == RecipeV::Aggregate(operator, Box::new(argument@)),
            final(self)@.aggregates == old(self)@.aggregates.push(r@),
            final(self)@.columns == old(self)@.columns,
            final(self)@.objects == old(self)@.objects,
    {
        let ghost old_aggs = self@.aggregates;
        let node = Recipe::Method(Box::new(Method::Aggregate(operator, argument)));
        let copy = node.clone();
        self.aggregates.push(copy);
        proof {
            assert(final(self)@.aggregates =~= old_aggs.push(node@));
        }
        node
    }
}

impl MetaRecipe {
    /// A tree that is one literal value, with empty metadata.
    pub fn of_value(value: crate::value::Value) -> (r: Self)
        ensures
            r.recipe@ == RecipeV::Value(value@),
            r.meta@.columns.len() == 0,
            r.meta@.aggregates.len() == 0,
            r.meta@.objects.len() == 0,
    {
        MetaRecipe {
            recipe: Recipe::Ingredient(Ingredient::Value(value)),
            meta: RecipeMeta::new(),
        }
    }

    /// The tree that is the boolean literal `TRUE`, with empty metadata.
    pub fn true_recipe() -> (r: Self)
        ensures
            r.recipe@ == RecipeV::Value(crate::value::ValueV::Bool(true)),
            r.meta@.columns.len() == 0,
            r.meta@.aggregates.len() == 0,
            r.meta@.objects.len() == 0,
    {
        MetaRecipe { recipe: Recipe::true_recipe(), meta: RecipeMeta::new() }
    }
}

} // verus!
