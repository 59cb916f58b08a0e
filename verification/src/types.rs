//! Column and table identities.
//!
//! A column is identified by its table (with an optional alias) and its
//! name. A parser-level qualified reference — a list of name segments such
//! as `col`, `table.col` or `db.table.col` — matches an identity
//! order-reversed and suffix-first: the last segment must equal the column
//! name, and the second-to-last, when present, must equal the table's name
//! or its alias.

use vstd::prelude::*;

use crate::text::str_content_eq;

verus! {

/// A table's identity: its database, an optional alias, and its name.
pub struct ComplexTableName {
    pub database: String,
    pub alias: Option<String>,
    pub name: String,
}

/// The image of a table identity.
pub struct TableNameV {
    pub database: Seq<char>,
    pub alias: Option<Seq<char>>,
    pub name: Seq<char>,
}

impl View for ComplexTableName {
    type V = TableNameV;

    open spec fn view(&self) -> TableNameV {
        TableNameV {
            database: self.database@,
            alias: match self.alias {
                Some(a) => Some(a@),
                None => None,
            },
            name: self.name@,
        }
    }
}

impl Clone for ComplexTableName {
    fn clone(&self) -> (r: Self)
        ensures
            r@ == self@,
    {
        ComplexTableName {
            database: self.database.clone(),
            alias: match &self.alias {
                Some(a) => Some(a.clone()),
                None => None,
            },
            name: self.name.clone(),
        }
    }
}

/// A column's identity within one projected row shape: its table, its name,
/// and the name of the index that serves it, if one does.
pub struct ColumnInfo {
    pub table: ComplexTableName,
    pub name: String,
    pub index: Option<String>,
}

/// The image of a column identity.
pub struct ColumnInfoV {
    pub table: TableNameV,
    pub name: Seq<char>,
    pub index: Option<Seq<char>>,
}

impl View for ColumnInfo {
    type V = ColumnInfoV;

    open spec fn view(&self) -> ColumnInfoV {
        ColumnInfoV {
            table: self.table@,
            name: self.name@,
            index: match self.index {
                Some(i) => Some(i@),
                None => None,
            },
        }
    }
}

impl Clone for ColumnInfo {
    fn clone(&self) -> (r: Self)
        ensures
            r@ == self@,
    {
        ColumnInfo {
            table: self.table.clone(),
            name: self.name.clone(),
            index: match &self.index {
                Some(i) => Some(i.clone()),
                None => None,
            },
        }
    }
}

/// The images of a qualified reference's segments.
pub open spec fn object_name_view(name: Seq<String>) -> Seq<Seq<char>> {
    crate::error::segments_view(name)
}

/// Whether a qualified reference matches a column identity: the reference's
/// last segment is the column's name, and its second-to-last segment, when
/// there is one, is the table's name or the table's alias. An empty
/// reference matches nothing; a database segment is not examined.
pub open spec fn spec_matches_object(c: ColumnInfoV, o: Seq<Seq<char>>) -> bool {
    &&& o.len() >= 1
    &&& o[o.len() - 1] == c.name
    &&& (o.len() >= 2 ==> {
        ||| o[o.len() - 2] == c.table.name
        ||| (c.table.alias matches Some(a) && o[o.len() - 2] == a)
    })
}

impl ColumnInfo {
    /// A bare column identity: just a name, with an anonymous table.
    pub fn of_name(name: String) -> (r: Self)
        ensures
            r@.name == name@,
            r@.table.database.len() == 0,
            r@.table.name.len() == 0,
            r@.table.alias is None,
            r@.index is None,
    {
        ColumnInfo {
            table: ComplexTableName {
                database: String::new(),
                name: String::new(),
                alias: None,
            },
            name,
            index: None,
        }
    }

    /// Whether the qualified reference `name` resolves to this column.
    pub fn matches_object(&self, name: &Vec<String>) -> (r: bool)
        ensures
            r == spec_matches_object(self@, object_name_view(name@)),
    {
        let len = name.len();
        if len == 0 {
            return false;
        }
        let names_eq = str_content_eq(name[len - 1].as_str(), self.name.as_str());
        if !names_eq {
            return false;
        }
        if len >= 2 {
            let t = &name[len - 2];
            if str_content_eq(t.as_str(), self.table.name.as_str()) {
                return true;
            }
            match &self.table.alias {
                Some(a) => str_content_eq(t.as_str(), a.as_str()),
                None => false,
            }
        } else {
            true
        }
    }
}

/// Whether two qualified references hold the same segments.
#[verifier::loop_isolation(false)]
pub fn object_names_eq(a: &Vec<String>, b: &Vec<String>) -> (r: bool)
    ensures
        r == (object_name_view(a@) == object_name_view(b@)),
{
    if a.len() != b.len() {
        proof {
            assert(object_name_view(a@).len() != object_name_view(b@).len());
        }
        return false;
    }
    let mut i: usize = 0;
    while i < a.len()
        invariant
            i <= a@.len(),
            forall|j: int| 0 <= j < i ==> a@[j]@ == b@[j]@,
        decreases a@.len() - i,
    {
        if !str_content_eq(a[i].as_str(), b[i].as_str()) {
            proof {
                assert(object_name_view(a@)[i as int] != object_name_view(b@)[i as int]);
            }
            return false;
        }
        i = i + 1;
    }
    proof {
        assert(object_name_view(a@) =~= object_name_view(b@));
    }
    true
}

/// Clones a qualified reference.
#[verifier::loop_isolation(false)]
pub fn clone_object_name(name: &Vec<String>) -> (r: Vec<String>)
    ensures
        object_name_view(r@) == object_name_view(name@),
{
    let mut out: Vec<String> = Vec::new();
    let mut i: usize = 0;
    while i < name.len()
        invariant
            i <= name@.len(),
            out@.len() == i,
            forall|j: int| 0 <= j < i ==> out@[j]@ == name@[j]@,
        decreases name@.len() - i,
    {
        out.push(name[i].clone());
        i = i + 1;
    }
    proof {
        assert(object_name_view(out@) =~= object_name_view(name@));
    }
    out
}

} // verus!
