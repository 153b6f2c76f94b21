//! Builders of parameterized SQL statements.
//!
//! Table and column names are schema constants that go into the statement text as they are.
//! Values never do: each one is bound to a named parameter, and the text only holds the
//! parameter's name.

use vstd::prelude::*;
use vstd::string::StringExecFns;
use crate::text::edit::push_replacing_char;
use crate::text::{chars_of, join, lemma_join_step, replace_char};

pub mod delete;
pub mod insert;
pub mod select;
pub mod update;

pub use delete::DeleteStatement;
pub use insert::InsertStatement;
pub use select::{SelectExpr, SelectStatement};
pub use update::UpdateStatement;

verus! {

/// One condition of a WHERE section: the clause it tests and the comparison operator, where
/// no operator stands for equality.
pub struct Predicate {
    pub clause: Seq<char>,
    pub operator: Option<Seq<char>>,
}

/// The conditions that a list of clause and operator pairs stands for.
pub open spec fn predicates_of(list: Seq<(&str, Option<&str>)>) -> Seq<Predicate> {
    Seq::new(
        list.len(),
        |i: int|
            Predicate {
                clause: list[i].0@,
                operator: match list[i].1 {
                    Some(op) => Some(op@),
                    None => None,
                },
            },
    )
}

/// The views of a list of names.
pub open spec fn names_of(list: Seq<&str>) -> Seq<Seq<char>> {
    Seq::new(list.len(), |i: int| list[i]@)
}

/// The parameter name that a clause gives: the clause with an underscore for every dot.
pub open spec fn param_name(clause: Seq<char>) -> Seq<char> {
    replace_char(clause, '.', "_"@)
}

/// The bind parameter of a clause, as the engine knows it: a colon, the statement's prefix
/// and the parameter name.
pub open spec fn bind_name(prefix: Seq<char>, clause: Seq<char>) -> Seq<char> {
    ":"@ + prefix + param_name(clause)
}

/// The operator of a condition as text.
pub open spec fn operator_sql(operator: Option<Seq<char>>) -> Seq<char> {
    match operator {
        Some(op) => op,
        None => "="@,
    }
}

/// One condition as SQL: the clause, the operator and the bind parameter.
pub open spec fn predicate_sql(prefix: Seq<char>, p: Predicate) -> Seq<char> {
    p.clause + " "@ + operator_sql(p.operator) + " "@ + bind_name(prefix, p.clause)
}

/// The conditions as SQL, each in its place.
pub open spec fn predicates_sql(prefix: Seq<char>, predicates: Seq<Predicate>) -> Seq<
    Seq<char>,
> {
    Seq::new(predicates.len(), |i: int| predicate_sql(prefix, predicates[i]))
}

/// The WHERE section: nothing where there is no condition, else the conditions joined by
/// AND from left to right, in the order in which they were registered.
pub open spec fn where_sql(prefix: Seq<char>, predicates: Seq<Predicate>) -> Seq<char> {
    if predicates.len() == 0 {
        Seq::empty()
    } else {
        " WHERE "@ + join(predicates_sql(prefix, predicates), " AND "@)
    }
}

/// The bind parameters of the conditions, in order.
pub open spec fn bind_names(prefix: Seq<char>, predicates: Seq<Predicate>) -> Seq<Seq<char>> {
    Seq::new(predicates.len(), |i: int| bind_name(prefix, predicates[i].clause))
}

/// Shorthand for constructing any table query.
#[derive(Debug, Clone)]
pub struct Query;

impl Query {
    /// A [`SelectStatement`] with nothing in it.
    pub fn select<'a>() -> (s: SelectStatement<'a>)
        ensures
            s@ == select::SelectView::empty(),
    {
        SelectStatement::new()
    }

    /// An [`UpdateStatement`] with nothing in it.
    pub fn update<'a>() -> (s: UpdateStatement<'a>)
        ensures
            s@ == update::UpdateView::empty(),
    {
        UpdateStatement::new()
    }

    /// An [`InsertStatement`] with nothing in it.
    pub fn insert<'a>() -> (s: InsertStatement<'a>)
        ensures
            s@ == insert::InsertView::empty(),
    {
        InsertStatement::new()
    }

    /// A [`DeleteStatement`] with nothing in it.
    pub fn delete<'a>() -> (s: DeleteStatement<'a>)
        ensures
            s@ == delete::DeleteView::empty(),
    {
        DeleteStatement::new()
    }
}

/// A statement that can be written out as SQL text.
pub trait SqlString {
    /// The SQL text of the statement.
    spec fn sql(&self) -> Seq<char>;

    /// Writes the statement out. The text depends on the statement alone.
    fn to_sql(&self) -> (sql: String)
        ensures
            sql@ == self.sql(),
    ;
}

/// Appends the names to `out`, with `sep` between each two neighbours.
pub fn push_joined(out: &mut String, names: &Vec<&str>, sep: &str)
    ensures
        final(out)@ == old(out)@ + join(names_of(names@), sep@),
{
    let ghost parts = names_of(names@);
    let mut i: usize = 0;
    proof {
        assert(out@ =~= old(out)@ + join(parts.take(0), sep@));
    }
    while i < names.len()
        invariant
            i <= names.len(),
            parts == names_of(names@),
            out@ == old(out)@ + join(parts.take(i as int), sep@),
        decreases names.len() - i,
    {
        if i != 0 {
            out.append(sep);
        }
        out.append(names[i]);
        proof {
            lemma_join_step(parts, sep@, i as int);
            assert(out@ =~= old(out)@ + join(parts.take(i + 1), sep@));
        }
        i += 1;
    }
    proof {
        assert(parts.take(names.len() as int) =~= parts);
    }
}

/// Appends the bind parameter of `clause` to `out`.
pub fn push_bind_name(out: &mut String, prefix: &str, clause: &str)
    ensures
        final(out)@ == old(out)@ + bind_name(prefix@, clause@),
{
    let chars = chars_of(clause);
    out.append(":");
    out.append(prefix);
    push_replacing_char(out, &chars, 0, chars.len(), '.', "_");
    proof {
        assert(chars@.subrange(0, chars.len() as int) =~= clause@);
        assert(out@ =~= old(out)@ + bind_name(prefix@, clause@));
    }
}

/// The bind parameter of `clause` in a statement with the given prefix.
pub fn bind_parameter(prefix: &str, clause: &str) -> (name: String)
    ensures
        name@ == bind_name(prefix@, clause@),
{
    let mut name = String::new();
    push_bind_name(&mut name, prefix, clause);
    proof {
        assert(Seq::<char>::empty() + bind_name(prefix@, clause@) =~= bind_name(
            prefix@,
            clause@,
        ));
    }
    name
}

/// Appends the WHERE section of `predicates` to `out`.
pub fn push_where(out: &mut String, prefix: &str, predicates: &Vec<(&str, Option<&str>)>)
    ensures
        final(out)@ == old(out)@ + where_sql(prefix@, predicates_of(predicates@)),
{
    let ghost preds = predicates_of(predicates@);
    let ghost parts = predicates_sql(prefix@, preds);
    if predicates.len() == 0 {
        proof {
            assert(out@ =~= old(out)@ + where_sql(prefix@, preds));
        }
        return ;
    }
    out.append(" WHERE ");
    let mut i: usize = 0;
    while i < predicates.len()
        invariant
            i <= predicates.len(),
            preds == predicates_of(predicates@),
            parts == predicates_sql(prefix@, preds),
            out@ == old(out)@ + " WHERE "@ + join(parts.take(i as int), " AND "@),
        decreases predicates.len() - i,
    {
        let ghost before = out@;
        if i != 0 {
            out.append(" AND ");
        }
        let (clause, operator) = predicates[i];
        out.append(clause);
        out.append(" ");
        match operator {
            Some(op) => out.append(op),
            None => out.append("="),
        }
        out.append(" ");
        push_bind_name(out, prefix, clause);
        proof {
            let piece = predicate_sql(prefix@, preds[i as int]);
            assert(parts[i as int] == piece);
            assert(parts.take(i + 1).drop_last() =~= parts.take(i as int));
            assert(parts.take(i + 1).last() == piece);
            if i == 0 {
                assert(join(parts.take(0), " AND "@) =~= Seq::<char>::empty());
                assert(out@ =~= old(out)@ + " WHERE "@ + piece);
            } else {
                assert(out@ =~= before + " AND "@ + piece);
                assert(out@ =~= old(out)@ + " WHERE "@ + (join(parts.take(i as int), " AND "@)
                    + " AND "@ + piece));
            }
        }
        i += 1;
    }
    proof {
        assert(parts.take(predicates.len() as int) =~= parts);
    }
}

} // verus!
