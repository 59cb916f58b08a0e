//! One planned join step per joined table, and the computation of which
//! upstream tables its constraint needs.
//!
//! A table's columns are not fixed until every table in the query has been
//! resolved — aliasing and projection context affect identity — so the
//! needed-tables computation runs once, after all sibling plans' column
//! lists are known. An upstream table is needed exactly when one of its
//! columns is named, by identity matching, among the constraint's object
//! references.

use vstd::prelude::*;

use crate::meta::MetaRecipe;
use crate::planned::column_infos_view;
use crate::types::{spec_matches_object, ColumnInfo, ColumnInfoV};

verus! {

/// The kind of a join, ordered by strictness; the order is the tie-break
/// when otherwise-independent joins are sequenced.
#[derive(PartialEq, Eq, Structural, Clone, Copy, Debug)]
pub enum JoinType {
    Inner,
    Left,
    Right,
    Full,
}

/// The strictness rank of a join kind: an inner join is the strictest.
pub open spec fn spec_join_rank(t: JoinType) -> int {
    match t {
        JoinType::Inner => 0,
        JoinType::Left => 1,
        JoinType::Right => 2,
        JoinType::Full => 3,
    }
}

impl JoinType {
    /// The strictness rank of this join kind.
    pub fn rank(&self) -> (r: u8)
        ensures
            r as int == spec_join_rank(*self),
    {
        match self {
            JoinType::Inner => 0,
            JoinType::Left => 1,
            JoinType::Right => 2,
            JoinType::Full => 3,
        }
    }

    /// Whether this join kind is evaluated before `other`: strictly by
    /// strictness rank, so two plans of the same kind are never ordered and
    /// never considered duplicates.
    pub fn precedes(&self, other: &JoinType) -> (r: bool)
        ensures
            r == (spec_join_rank(*self) < spec_join_rank(*other)),
    {
        self.rank() < other.rank()
    }
}

/// Whether one of `cols` is named among the constraint's object references.
pub open spec fn spec_table_needed(
    cols: Seq<ColumnInfoV>,
    objects: Seq<Option<Seq<Seq<char>>>>,
) -> bool {
    exists|c: int, o: int|
        {
            &&& 0 <= c < cols.len()
            &&& 0 <= o < objects.len()
            &&& #[trigger] objects[o] matches Some(name) && spec_matches_object(
                #[trigger] cols[c],
                name,
            )
        }
}

/// One join step: the joined table, its resolved column list, the join
/// kind, the join constraint, and — once computed — the positions of the
/// upstream tables the constraint needs.
pub struct JoinPlan {
    pub database: String,
    pub table: String,
    pub columns: Vec<ColumnInfo>,
    pub join_type: JoinType,
    pub constraint: MetaRecipe,
    pub needed_tables: Vec<usize>,
}

impl JoinPlan {
    /// A join step for one table clause; the needed tables are computed
    /// later, once every sibling's column list is known.
    pub fn new(
        database: String,
        table: String,
        columns: Vec<ColumnInfo>,
        join_type: JoinType,
        constraint: MetaRecipe,
    ) -> (r: Self)
        ensures
            r.database@ == database@,
            r.table@ == table@,
            column_infos_view(r.columns@) == column_infos_view(columns@),
            r.join_type == join_type,
            r.constraint == constraint,
            r.needed_tables@.len() == 0,
    {
        JoinPlan { database, table, columns, join_type, constraint, needed_tables: Vec::new() }
    }

    /// Computes which upstream tables the join constraint needs: table `i`
    /// is needed exactly when one of `table_columns[i]` is named, by
    /// identity matching, among the constraint's object references. The
    /// positions come out in increasing order; nothing else of the plan
    /// changes.
    #[verifier::loop_isolation(false)]
    pub fn calculate_needed_tables(&mut self, table_columns: &Vec<Vec<ColumnInfo>>)
        ensures
            ({
                let objects = old(self).constraint.meta@.objects;
                let needed = final(self).needed_tables@;
                &&& forall|n: int|
                    0 <= n < needed.len() ==> #[trigger] needed[n] < table_columns@.len()
                        && spec_table_needed(
                        column_infos_view(table_columns@[needed[n] as int]@),
                        objects,
                    )
                &&& forall|i: int|
                    0 <= i < table_columns@.len() && spec_table_needed(
                        column_infos_view(#[trigger] table_columns@[i]@),
                        objects,
                    ) ==> needed.contains(i as usize)
                &&& forall|n: int, m: int|
                    0 <= n < m < needed.len() ==> #[trigger] needed[n] < #[trigger] needed[m]
            }),
            final(self).database == old(self).database,
            final(self).table == old(self).table,
            final(self).columns == old(self).columns,
            final(self).join_type == old(self).join_type,
            final(self).constraint == old(self).constraint,
    {
        let ghost objects = self.constraint.meta@.objects;
        let mut needed: Vec<usize> = Vec::new();
        let mut i: usize = 0;
        while i < table_columns.len()
            invariant
                i <= table_columns@.len(),
                objects == self.constraint.meta@.objects,
                forall|n: int|
                    0 <= n < needed@.len() ==> #[trigger] needed@[n] < i && spec_table_needed(
                        column_infos_view(table_columns@[needed@[n] as int]@),
                        objects,
                    ),
                forall|j: int|
                    0 <= j < i && spec_table_needed(
                        column_infos_view(#[trigger] table_columns@[j]@),
                        objects,
                    ) ==> needed@.contains(j as usize),
                forall|n: int, m: int|
                    0 <= n < m < needed@.len() ==> #[trigger] needed@[n]
                        < #[trigger] needed@[m],
            decreases table_columns@.len() - i,
        {
            let ghost old_needed = needed@;
            if table_needed(&table_columns[i], &self.constraint) {
                needed.push(i);
                proof {
                    assert(needed@[needed@.len() - 1] == i as usize);
                    assert(needed@.contains(i as usize));
                    assert forall|j: int|
                        0 <= j < i && spec_table_needed(
                            column_infos_view(#[trigger] table_columns@[j]@),
                            objects,
                        ) implies needed@.contains(j as usize) by {
                        assert(old_needed.contains(j as usize));
                        let k = choose|k: int|
                            0 <= k < old_needed.len() && old_needed[k] == j as usize;
                        assert(needed@[k] == j as usize);
                    }
                }
            } else {
                proof {
                    assert(!spec_table_needed(
                        column_infos_view(table_columns@[i as int]@),
                        objects,
                    ));
                }
            }
            i = i + 1;
        }
        self.needed_tables = needed;
    }
}

/// Whether one of `cols` is named among the constraint's object references.
#[verifier::loop_isolation(false)]
fn table_needed(cols: &Vec<ColumnInfo>, constraint: &MetaRecipe) -> (r: bool)
    ensures
        r == spec_table_needed(column_infos_view(cols@), constraint.meta@.objects),
{
    let ghost colsv = column_infos_view(cols@);
    let ghost objects = constraint.meta@.objects;
    let mut c: usize = 0;
    while c < cols.len()
        invariant
            c <= cols@.len(),
            colsv == column_infos_view(cols@),
            objects == constraint.meta@.objects,
            forall|cc: int, o: int|
                0 <= cc < c && 0 <= o < objects.len() ==> !(#[trigger] objects[o] matches Some(
                    name,
                ) && spec_matches_object(#[trigger] colsv[cc], name)),
        decreases cols@.len() - c,
    {
        let mut o: usize = 0;
        while o < constraint.meta.objects.len()
            invariant
                o <= constraint.meta.objects@.len(),
                c < cols@.len(),
                colsv == column_infos_view(cols@),
                objects == constraint.meta@.objects,
                forall|oo: int|
                    0 <= oo < o ==> !(#[trigger] objects[oo] matches Some(name)
                        && spec_matches_object(colsv[c as int], name)),
            decreases constraint.meta.objects@.len() - o,
        {
            match &constraint.meta.objects[o] {
                Some(object_name) => {
                    if cols[c].matches_object(object_name) {
                        proof {
                            assert(objects[o as int] matches Some(name) && spec_matches_object(
                                colsv[c as int],
                                name,
                            ));
                        }
                        return true;
                    }
                },
                None => {},
            }
            o = o + 1;
        }
        c = c + 1;
    }
    false
}

} // verus!
