//! The INSERT statement.

use vstd::prelude::*;
use vstd::string::StringExecFns;
use super::{names_of, push_joined, SqlString};
use crate::text::{join, lemma_join_step};

verus! {

/// Insert new rows into an existing table.
#[derive(Debug, Clone)]
pub struct InsertStatement<'a> {
    pub columns: Vec<&'a str>,
    pub table: &'a str,
}

/// What an [`InsertStatement`] says.
pub struct InsertView {
    pub columns: Seq<Seq<char>>,
    pub table: Seq<char>,
}

impl InsertView {
    /// The statement that names no table and no column.
    pub open spec fn empty() -> InsertView {
        InsertView { columns: Seq::empty(), table: Seq::empty() }
    }

    /// The SQL text of the statement: the table, the columns, and one bind parameter for
    /// each column, named after it.
    pub open spec fn sql(self) -> Seq<char> {
        "INSERT INTO "@ + self.table + " ("@ + join(self.columns, ", "@) + ") VALUES ("@ + join(
            placeholders(self.columns),
            ", "@,
        ) + ")"@
    }
}

/// The bind parameter of each column: a colon and the column's name.
pub open spec fn placeholders(columns: Seq<Seq<char>>) -> Seq<Seq<char>> {
    Seq::new(columns.len(), |i: int| ":"@ + columns[i])
}

impl<'a> View for InsertStatement<'a> {
    type V = InsertView;

    open spec fn view(&self) -> InsertView {
        InsertView { columns: names_of(self.columns@), table: self.table@ }
    }
}

impl SqlString for InsertStatement<'_> {
    open spec fn sql(&self) -> Seq<char> {
        self@.sql()
    }

    fn to_sql(&self) -> (sql: String) {
        let mut sql = String::new();
        sql.append("INSERT INTO ");
        sql.append(self.table);
        sql.append(" (");
        push_joined(&mut sql, &self.columns, ", ");
        sql.append(") VALUES (");
        let ghost head = sql@;
        let ghost parts = placeholders(self@.columns);
        let mut i: usize = 0;
        proof {
            assert(head =~= "INSERT INTO "@ + self@.table + " ("@ + join(self@.columns, ", "@)
                + ") VALUES ("@);
            assert(join(parts.take(0), ", "@) =~= Seq::<char>::empty());
            assert(sql@ =~= head + join(parts.take(0), ", "@));
        }
        while i < self.columns.len()
            invariant
                i <= self.columns.len(),
                parts == placeholders(self@.columns),
                sql@ == head + join(parts.take(i as int), ", "@),
            decreases self.columns.len() - i,
        {
            let ghost before = sql@;
            if i != 0 {
                sql.append(", ");
            }
            sql.append(":");
            sql.append(self.columns[i]);
            proof {
                lemma_join_step(parts, ", "@, i as int);
                assert(parts[i as int] == ":"@ + self@.columns[i as int]);
                assert(sql@ =~= head + join(parts.take(i + 1), ", "@));
            }
            i += 1;
        }
        proof {
            assert(parts.take(self.columns.len() as int) =~= parts);
        }
        sql.append(")");
        sql
    }
}

impl<'a> InsertStatement<'a> {
    /// A statement that names no table and no column.
    pub fn new() -> (s: Self)
        ensures
            s@ == InsertView::empty(),
    {
        let s = InsertStatement { columns: Vec::new(), table: "" };
        proof {
            reveal_strlit("");
            assert(s@.columns =~= Seq::empty());
            assert(s@.table =~= Seq::empty());
        }
        s
    }

    /// Sets the table to insert into.
    pub fn table(&mut self, table_name: &'a str) -> (ret: &mut Self)
        ensures
            (*ret)@ == (InsertView { table: table_name@, ..old(self)@ }),
            *final(self) == *final(ret),
    {
        self.table = table_name;
        self
    }

    /// Adds a column to the insertion list.
    pub fn column(&mut self, column: &'a str) -> (ret: &mut Self)
        ensures
            (*ret)@ == (InsertView { columns: old(self)@.columns.push(column@), ..old(self)@ }),
            *final(self) == *final(ret),
    {
        self.columns.push(column);
        assert(self@.columns =~= old(self)@.columns.push(column@));
        self
    }
}

} // verus!
