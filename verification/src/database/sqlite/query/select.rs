//! The SELECT statement.

use vstd::prelude::*;
use vstd::string::StringExecFns;
use super::{names_of, predicates_of, push_where, where_sql, Predicate, SqlString};
use crate::text::number::push_decimal;
use crate::text::{decimal, join};

verus! {

/// One entry of the selection list: an expression and, for a count, its alias.
#[derive(Debug, Clone)]
pub struct SelectExpr {
    pub expr: String,
    pub alias: Option<String>,
}

/// Select rows from an existing table.
#[derive(Debug, Clone)]
pub struct SelectStatement<'a> {
    pub from: Vec<&'a str>,
    pub selects: Vec<SelectExpr>,
    /// Each condition with its operator; `None` stands for `=`.
    pub predicates: Vec<(&'a str, Option<&'a str>)>,
    pub limit: Option<usize>,
    pub orderby: Option<(&'a str, &'a str)>,
}

/// What one entry of the selection list says.
pub struct SelectItem {
    pub expr: Seq<char>,
    pub alias: Option<Seq<char>>,
}

/// What a [`SelectStatement`] says.
pub struct SelectView {
    pub from: Seq<Seq<char>>,
    pub selects: Seq<SelectItem>,
    pub predicates: Seq<Predicate>,
    pub limit: Option<usize>,
    pub orderby: Option<(Seq<char>, Seq<char>)>,
}

impl SelectView {
    /// The statement that selects nothing from nowhere.
    pub open spec fn empty() -> SelectView {
        SelectView {
            from: Seq::empty(),
            selects: Seq::empty(),
            predicates: Seq::empty(),
            limit: None,
            orderby: None,
        }
    }

    /// With one more entry at the end of the selection list.
    pub open spec fn with_select(self, item: SelectItem) -> SelectView {
        SelectView { selects: self.selects.push(item), ..self }
    }

    /// With one more table at the end of the FROM list.
    pub open spec fn with_from(self, table: Seq<char>) -> SelectView {
        SelectView { from: self.from.push(table), ..self }
    }

    /// With one more condition at the end of the WHERE section.
    pub open spec fn with_predicate(self, p: Predicate) -> SelectView {
        SelectView { predicates: self.predicates.push(p), ..self }
    }

    /// The SQL text of the statement: the selection list, the tables, the conditions, then
    /// the ordering and the limit where they are set.
    pub open spec fn sql(self) -> Seq<char> {
        "SELECT "@ + join(items_sql(self.selects), ", "@) + " FROM "@ + join(self.from, ", "@)
            + where_sql(Seq::empty(), self.predicates) + order_sql(self.orderby) + limit_sql(
            self.limit,
        )
    }
}

/// One entry of the selection list as SQL.
pub open spec fn item_sql(item: SelectItem) -> Seq<char> {
    match item.alias {
        Some(alias) => item.expr + " AS "@ + alias,
        None => item.expr,
    }
}

/// The entries of the selection list as SQL, each in its place.
pub open spec fn items_sql(items: Seq<SelectItem>) -> Seq<Seq<char>> {
    Seq::new(items.len(), |i: int| item_sql(items[i]))
}

/// The ORDER BY section.
pub open spec fn order_sql(orderby: Option<(Seq<char>, Seq<char>)>) -> Seq<char> {
    match orderby {
        Some((column, direction)) => " ORDER BY "@ + column + " "@ + direction,
        None => Seq::empty(),
    }
}

/// The LIMIT section, which ends in a space.
pub open spec fn limit_sql(limit: Option<usize>) -> Seq<char> {
    match limit {
        Some(n) => " LIMIT "@ + decimal(n as nat) + " "@,
        None => Seq::empty(),
    }
}

/// What the entries of a selection list say.
pub open spec fn items_of(list: Seq<SelectExpr>) -> Seq<SelectItem> {
    Seq::new(
        list.len(),
        |i: int|
            SelectItem {
                expr: list[i].expr@,
                alias: match list[i].alias {
                    Some(a) => Some(a@),
                    None => None,
                },
            },
    )
}

impl<'a> View for SelectStatement<'a> {
    type V = SelectView;

    open spec fn view(&self) -> SelectView {
        SelectView {
            from: names_of(self.from@),
            selects: items_of(self.selects@),
            predicates: predicates_of(self.predicates@),
            limit: self.limit,
            orderby: match self.orderby {
                Some((column, direction)) => Some((column@, direction@)),
                None => None,
            },
        }
    }
}

impl SqlString for SelectStatement<'_> {
    open spec fn sql(&self) -> Seq<char> {
        self@.sql()
    }

    fn to_sql(&self) -> (sql: String) {
        let mut sql = String::new();
        sql.append("SELECT ");
        let ghost items = items_sql(self@.selects);
        let mut i: usize = 0;
        while i < self.selects.len()
            invariant
                i <= self.selects.len(),
                items == items_sql(self@.selects),
                sql@ == "SELECT "@ + join(items.take(i as int), ", "@),
            decreases self.selects.len() - i,
        {
            let ghost before = sql@;
            if i != 0 {
                sql.append(", ");
            }
            let select = &self.selects[i];
            sql.append(select.expr.as_str());
            match &select.alias {
                Some(alias) => {
                    sql.append(" AS ");
                    sql.append(alias.as_str());
                },
                None => {},
            }
            proof {
                let piece = item_sql(self@.selects[i as int]);
                assert(items[i as int] == piece);
                assert(items.take(i + 1).drop_last() =~= items.take(i as int));
                assert(items.take(i + 1).last() == piece);
                if i == 0 {
                    assert(join(items.take(0), ", "@) =~= Seq::<char>::empty());
                    assert(sql@ =~= "SELECT "@ + piece);
                } else {
                    assert(sql@ =~= before + ", "@ + piece);
                    assert(sql@ =~= "SELECT "@ + (join(items.take(i as int), ", "@) + ", "@
                        + piece));
                }
            }
            i += 1;
        }
        proof {
            assert(items.take(self.selects.len() as int) =~= items);
        }
        sql.append(" FROM ");
        let ghost head = sql@;
        let ghost tables = self@.from;
        let mut j: usize = 0;
        while j < self.from.len()
            invariant
                j <= self.from.len(),
                tables == self@.from,
                sql@ == head + join(tables.take(j as int), ", "@),
            decreases self.from.len() - j,
        {
            let ghost before = sql@;
            if j != 0 {
                sql.append(", ");
            }
            sql.append(self.from[j]);
            proof {
                let piece = tables[j as int];
                assert(tables.take(j + 1).drop_last() =~= tables.take(j as int));
                assert(tables.take(j + 1).last() == piece);
                if j == 0 {
                    assert(join(tables.take(0), ", "@) =~= Seq::<char>::empty());
                    assert(sql@ =~= head + piece);
                } else {
                    assert(sql@ =~= before + ", "@ + piece);
                    assert(sql@ =~= head + (join(tables.take(j as int), ", "@) + ", "@ + piece));
                }
            }
            j += 1;
        }
        proof {
            assert(tables.take(self.from.len() as int) =~= tables);
        }
        push_where(&mut sql, "", &self.predicates);
        proof {
            reveal_strlit("");
            assert(""@ =~= Seq::<char>::empty());
        }
        let ghost body = sql@;
        match self.orderby {
            Some((column, direction)) => {
                sql.append(" ORDER BY ");
                sql.append(column);
                sql.append(" ");
                sql.append(direction);
                assert(sql@ =~= body + order_sql(self@.orderby));
            },
            None => {
                assert(sql@ =~= body + order_sql(self@.orderby));
            },
        }
        let ghost ordered = sql@;
        match self.limit {
            Some(limit) => {
                sql.append(" LIMIT ");
                push_decimal(&mut sql, limit as u64);
                sql.append(" ");
                assert(sql@ =~= ordered + limit_sql(self@.limit));
            },
            None => {
                assert(sql@ =~= ordered + limit_sql(self@.limit));
            },
        }
        sql
    }
}

impl<'a> SelectStatement<'a> {
    /// A statement that selects nothing from nowhere.
    pub fn new() -> (s: Self)
        ensures
            s@ == SelectView::empty(),
    {
        let s = SelectStatement {
            from: Vec::new(),
            selects: Vec::new(),
            predicates: Vec::new(),
            limit: None,
            orderby: None,
        };
        assert(s@.from =~= Seq::empty());
        assert(s@.selects =~= Seq::empty());
        assert(s@.predicates =~= Seq::empty());
        s
    }

    /// Adds `count(column_name) AS alias` to the selection list. The column may be `*`.
    pub fn count(&mut self, column_name: &'a str, alias: &'a str) -> (ret: &mut Self)
        ensures
            (*ret)@ == old(self)@.with_select(
                SelectItem { expr: "count("@ + column_name@ + ")"@, alias: Some(alias@) },
            ),
            *final(self) == *final(ret),
    {
        let mut expr = String::new();
        expr.append("count(");
        expr.append(column_name);
        expr.append(")");
        assert(expr@ =~= "count("@ + column_name@ + ")"@);
        self.selects.push(SelectExpr { expr, alias: Some(alias.to_owned()) });
        assert(self@.selects =~= old(self)@.selects.push(
            SelectItem { expr: "count("@ + column_name@ + ")"@, alias: Some(alias@) },
        ));
        self
    }

    /// Adds a table to select from. One text may hold a whole join.
    pub fn from(&mut self, table_name: &'a str) -> (ret: &mut Self)
        ensures
            (*ret)@ == old(self)@.with_from(table_name@),
            *final(self) == *final(ret),
    {
        self.from.push(table_name);
        assert(self@.from =~= old(self)@.from.push(table_name@));
        self
    }

    /// Adds a condition that tests `clause` for equality with its bind parameter.
    pub fn where_(&mut self, clause: &'a str) -> (ret: &mut Self)
        ensures
            (*ret)@ == old(self)@.with_predicate(Predicate { clause: clause@, operator: None }),
            *final(self) == *final(ret),
    {
        self.predicates.push((clause, None));
        assert(self@.predicates =~= old(self)@.predicates.push(
            Predicate { clause: clause@, operator: None },
        ));
        self
    }

    /// Adds a full-text condition: `match_clause MATCH` its bind parameter.
    pub fn match_fts(&mut self, match_clause: &'a str) -> (ret: &mut Self)
        ensures
            (*ret)@ == old(self)@.with_predicate(
                Predicate { clause: match_clause@, operator: Some("MATCH"@) },
            ),
            *final(self) == *final(ret),
    {
        self.predicates.push((match_clause, Some("MATCH")));
        assert(self@.predicates =~= old(self)@.predicates.push(
            Predicate { clause: match_clause@, operator: Some("MATCH"@) },
        ));
        self
    }

    /// Adds a column to the selection list.
    pub fn column(&mut self, column: &'a str) -> (ret: &mut Self)
        ensures
            (*ret)@ == old(self)@.with_select(SelectItem { expr: column@, alias: None }),
            *final(self) == *final(ret),
    {
        self.selects.push(SelectExpr { expr: column.to_owned(), alias: None });
        assert(self@.selects =~= old(self)@.selects.push(
            SelectItem { expr: column@, alias: None },
        ));
        self
    }

    /// Sets the greatest number of rows to return.
    pub fn limit(&mut self, limit: usize) -> (ret: &mut Self)
        ensures
            (*ret)@ == (SelectView { limit: Some(limit), ..old(self)@ }),
            *final(self) == *final(ret),
    {
        self.limit = Some(limit);
        self
    }

    /// Sets the column and the direction to order the rows by.
    pub fn orderby(&mut self, column: &'a str, direction: &'a str) -> (ret: &mut Self)
        ensures
            (*ret)@ == (SelectView { orderby: Some((column@, direction@)), ..old(self)@ }),
            *final(self) == *final(ret),
    {
        self.orderby = Some((column, direction));
        self
    }
}

} // verus!
