//! The DELETE statement.

use vstd::prelude::*;
use vstd::string::StringExecFns;
use super::{predicates_of, push_where, where_sql, Predicate, SqlString};

verus! {

/// Delete rows from a table.
#[derive(Debug, Clone)]
pub struct DeleteStatement<'a> {
    pub table: &'a str,
    /// Each condition with its operator; `None` stands for `=`.
    pub predicates: Vec<(&'a str, Option<&'a str>)>,
}

/// What a [`DeleteStatement`] says.
pub struct DeleteView {
    pub table: Seq<char>,
    pub predicates: Seq<Predicate>,
}

impl DeleteView {
    /// The statement that names no table and has no condition.
    pub open spec fn empty() -> DeleteView {
        DeleteView { table: Seq::empty(), predicates: Seq::empty() }
    }

    /// The SQL text of the statement. Its bind parameters carry the prefix `w_`. Without a
    /// condition it deletes every row.
    pub open spec fn sql(self) -> Seq<char> {
        "DELETE FROM "@ + self.table + where_sql("w_"@, self.predicates)
    }
}

impl<'a> View for DeleteStatement<'a> {
    type V = DeleteView;

    open spec fn view(&self) -> DeleteView {
        DeleteView { table: self.table@, predicates: predicates_of(self.predicates@) }
    }
}

impl SqlString for DeleteStatement<'_> {
    open spec fn sql(&self) -> Seq<char> {
        self@.sql()
    }

    fn to_sql(&self) -> (sql: String) {
        let mut sql = String::new();
        sql.append("DELETE FROM ");
        sql.append(self.table);
        push_where(&mut sql, "w_", &self.predicates);
        assert(sql@ =~= self@.sql());
        sql
    }
}

impl<'a> DeleteStatement<'a> {
    /// A statement that names no table and has no condition.
    pub fn new() -> (s: Self)
        ensures
            s@ == DeleteView::empty(),
    {
        let s = DeleteStatement { table: "", predicates: Vec::new() };
        proof {
            reveal_strlit("");
            assert(s@.predicates =~= Seq::empty());
            assert(s@.table =~= Seq::empty());
        }
        s
    }

    /// Sets the table to delete from.
    pub fn table(&mut self, table_name: &'a str) -> (ret: &mut Self)
        ensures
            (*ret)@ == (DeleteView { table: table_name@, ..old(self)@ }),
            *final(self) == *final(ret),
    {
        self.table = table_name;
        self
    }

    /// Adds a condition that tests `clause` for equality with its bind parameter.
    pub fn where_(&mut self, clause: &'a str) -> (ret: &mut Self)
        ensures
            (*ret)@ == (DeleteView {
                predicates: old(self)@.predicates.push(
                    Predicate { clause: clause@, operator: None },
                ),
                ..old(self)@
            }),
            *final(self) == *final(ret),
    {
        self.predicates.push((clause, None));
        assert(self@.predicates =~= old(self)@.predicates.push(
            Predicate { clause: clause@, operator: None },
        ));
        self
    }
}

} // verus!
