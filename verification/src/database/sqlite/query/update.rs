//! The UPDATE statement.

use vstd::prelude::*;
use vstd::string::StringExecFns;
use super::{names_of, predicates_of, push_where, where_sql, Predicate, SqlString};
use crate::text::{join, lemma_join_step};

verus! {

/// Update existing rows in a table.
#[derive(Debug, Clone)]
pub struct UpdateStatement<'a> {
    pub columns: Vec<&'a str>,
    pub table: &'a str,
    /// Each condition with its operator; `None` stands for `=`.
    pub predicates: Vec<(&'a str, Option<&'a str>)>,
}

/// What an [`UpdateStatement`] says.
pub struct UpdateView {
    pub columns: Seq<Seq<char>>,
    pub table: Seq<char>,
    pub predicates: Seq<Predicate>,
}

impl UpdateView {
    /// The statement that names no table, sets no column and has no condition.
    pub open spec fn empty() -> UpdateView {
        UpdateView { columns: Seq::empty(), table: Seq::empty(), predicates: Seq::empty() }
    }

    /// The SQL text of the statement. Each column is set to the bind parameter of its own
    /// name; the bind parameters of the conditions carry the prefix `w_`, so that a column
    /// may be both set and tested.
    pub open spec fn sql(self) -> Seq<char> {
        "UPDATE "@ + self.table + " SET"@ + assignments_sql(self.columns) + where_sql(
            "w_"@,
            self.predicates,
        )
    }
}

/// One assignment of the SET section.
pub open spec fn assignment_sql(column: Seq<char>) -> Seq<char> {
    column + " = :"@ + column
}

/// The assignments of the SET section, each in its place.
pub open spec fn assignments(columns: Seq<Seq<char>>) -> Seq<Seq<char>> {
    Seq::new(columns.len(), |i: int| assignment_sql(columns[i]))
}

/// What follows SET: a space and the assignments with commas between them, or nothing where
/// no column is set.
pub open spec fn assignments_sql(columns: Seq<Seq<char>>) -> Seq<char> {
    if columns.len() == 0 {
        Seq::empty()
    } else {
        " "@ + join(assignments(columns), ", "@)
    }
}

impl<'a> View for UpdateStatement<'a> {
    type V = UpdateView;

    open spec fn view(&self) -> UpdateView {
        UpdateView {
            columns: names_of(self.columns@),
            table: self.table@,
            predicates: predicates_of(self.predicates@),
        }
    }
}

impl SqlString for UpdateStatement<'_> {
    open spec fn sql(&self) -> Seq<char> {
        self@.sql()
    }

    fn to_sql(&self) -> (sql: String) {
        let mut sql = String::new();
        sql.append("UPDATE ");
        sql.append(self.table);
        sql.append(" SET");
        let ghost head = sql@;
        let ghost parts = assignments(self@.columns);
        let mut i: usize = 0;
        while i < self.columns.len()
            invariant
                i <= self.columns.len(),
                parts == assignments(self@.columns),
                i == 0 ==> sql@ == head,
                i > 0 ==> sql@ == head + " "@ + join(parts.take(i as int), ", "@),
            decreases self.columns.len() - i,
        {
            let ghost before = sql@;
            if i == 0 {
                sql.append(" ");
            } else {
                sql.append(", ");
            }
            sql.append(self.columns[i]);
            sql.append(" = :");
            sql.append(self.columns[i]);
            proof {
                lemma_join_step(parts, ", "@, i as int);
                assert(parts[i as int] == assignment_sql(self@.columns[i as int]));
                assert(sql@ =~= head + " "@ + join(parts.take(i + 1), ", "@));
            }
            i += 1;
        }
        proof {
            assert(parts.take(self.columns.len() as int) =~= parts);
            assert(sql@ =~= head + assignments_sql(self@.columns));
        }
        push_where(&mut sql, "w_", &self.predicates);
        assert(sql@ =~= self@.sql());
        sql
    }
}

impl<'a> UpdateStatement<'a> {
    /// A statement that names no table, sets no column and has no condition.
    pub fn new() -> (s: Self)
        ensures
            s@ == UpdateView::empty(),
    {
        let s = UpdateStatement { columns: Vec::new(), table: "", predicates: Vec::new() };
        proof {
            reveal_strlit("");
            assert(s@.columns =~= Seq::empty());
            assert(s@.predicates =~= Seq::empty());
            assert(s@.table =~= Seq::empty());
        }
        s
    }

    /// Sets the table to update.
    pub fn table(&mut self, table_name: &'a str) -> (ret: &mut Self)
        ensures
            (*ret)@ == (UpdateView { table: table_name@, ..old(self)@ }),
            *final(self) == *final(ret),
    {
        self.table = table_name;
        self
    }

    /// Adds a condition that tests `clause` for equality with its bind parameter.
    pub fn where_(&mut self, clause: &'a str) -> (ret: &mut Self)
        ensures
            (*ret)@ == (UpdateView {
                predicates: old(self)@.predicates.push(
                    Predicate { clause: clause@, operator: None },
                ),
                ..old(self)@
            }),
            *final(self) == *final(ret),
    {
        self.predicates.push((clause, None));
        assert(self@.predicates =~= old(self)@.predicates.push(
            Predicate { clause: clause@, operator: None },
        ));
        self
    }

    /// Adds a column to set.
    pub fn column(&mut self, column: &'a str) -> (ret: &mut Self)
        ensures
            (*ret)@ == (UpdateView { columns: old(self)@.columns.push(column@), ..old(self)@ }),
            *final(self) == *final(ret),
    {
        self.columns.push(column);
        assert(self@.columns =~= old(self)@.columns.push(column@));
        self
    }
}

} // verus!
