//! What the store asks of the engine, and what it makes of the answers.
//!
//! For each operation of the store one function gives the statement, one gives the values
//! that are bound to the statement's parameters, and one tells what the engine's answer
//! means. The values of a record reach the engine only as bound parameters; the statement
//! text is made of schema constants alone.

use vstd::prelude::*;
use vstd::string::StringExecFns;
use super::bind::{bind_integer, bind_text, bindings_of, integer_binding, names_bound,
    text_binding, Binding, BindingView};
use super::query::delete::DeleteView;
use super::query::insert::{placeholders, InsertView};
use super::query::select::{SelectItem, SelectView};
use super::query::update::UpdateView;
use super::query::{bind_name, bind_names, bind_parameter, DeleteStatement, InsertStatement,
    Predicate, Query, SelectStatement, UpdateStatement};
use super::{generate_fts5_match_parameter, match_parameter};
use crate::database::{DatabaseError, ErrorKind};
use crate::history::model::{History, HistoryView};
use crate::text::number::{push_decimal, push_signed_decimal};
use crate::text::{decimal, signed_decimal};
use crate::{HistoryFilters, MatchMode};

verus! {

/// A column of the selection list.
pub open spec fn column(name: Seq<char>) -> SelectItem {
    SelectItem { expr: name, alias: None }
}

/// A condition that tests a clause for equality.
pub open spec fn equals(clause: Seq<char>) -> Predicate {
    Predicate { clause, operator: None }
}

/// The bind parameter of a column that is inserted or set: a colon and the column's name.
pub fn placeholder(column: &str) -> (name: String)
    ensures
        name@ == ":"@ + column@,
{
    let mut name = String::new();
    name.append(":");
    name.append(column);
    assert(name@ =~= ":"@ + column@);
    name
}

// ---------------------------------------------------------------------------------------------
// Saving a record
// ---------------------------------------------------------------------------------------------

/// The statement that saves a record: it inserts every field but the identifier, which the
/// engine assigns.
pub open spec fn save_statement() -> InsertView {
    InsertView {
        columns: seq!["timestamp"@, "command"@, "cwd"@, "exit_code"@],
        table: "history"@,
    }
}

/// The values that go with [`save_statement`] for a record.
pub open spec fn save_bindings(h: HistoryView) -> Seq<BindingView> {
    seq![
        integer_binding(":"@ + "timestamp"@, h.timestamp),
        text_binding(":"@ + "command"@, h.command),
        text_binding(":"@ + "cwd"@, h.cwd),
        integer_binding(":"@ + "exit_code"@, h.exit_code),
    ]
}

/// Every parameter of the statement that saves a record has its value, under its name and
/// in its place.
pub proof fn lemma_save_binds_each_parameter(h: HistoryView)
    ensures
        names_bound(save_bindings(h)) == placeholders(save_statement().columns),
{
    assert(names_bound(save_bindings(h)) =~= placeholders(save_statement().columns));
}

/// The statement that saves a record.
pub fn save_query() -> (statement: InsertStatement<'static>)
    ensures
        statement@ == save_statement(),
{
    let mut statement = Query::insert();
    statement.column("timestamp").column("command").column("cwd").column("exit_code").table(
        "history",
    );
    assert(statement@.columns =~= save_statement().columns);
    statement
}

/// The values that go with the statement that saves `history`.
pub fn save_params(history: &History) -> (params: Vec<Binding>)
    ensures
        bindings_of(params@) == save_bindings(history@),
{
    let mut params: Vec<Binding> = Vec::new();
    bind_integer(&mut params, placeholder("timestamp"), history.timestamp);
    bind_text(&mut params, placeholder("command"), history.command.as_str());
    bind_text(&mut params, placeholder("cwd"), history.cwd.as_str());
    bind_integer(&mut params, placeholder("exit_code"), history.exit_code);
    assert(bindings_of(params@) =~= save_bindings(history@));
    params
}

// ---------------------------------------------------------------------------------------------
// Fetching a record
// ---------------------------------------------------------------------------------------------

/// The statement that fetches the record with a given identifier.
pub open spec fn get_statement() -> SelectView {
    SelectView {
        from: seq!["history"@],
        selects: seq![
            column("id"@),
            column("command"@),
            column("cwd"@),
            column("exit_code"@),
            column("timestamp"@),
        ],
        predicates: seq![equals("id"@)],
        limit: None,
        orderby: None,
    }
}

/// The value that goes with [`get_statement`] for an identifier.
pub open spec fn get_bindings(id: i64) -> Seq<BindingView> {
    seq![integer_binding(bind_name(Seq::empty(), "id"@), id)]
}

/// The one parameter of the statement that fetches a record has its value.
pub proof fn lemma_get_binds_each_parameter(id: i64)
    ensures
        names_bound(get_bindings(id)) == bind_names(Seq::empty(), get_statement().predicates),
{
    assert(names_bound(get_bindings(id)) =~= bind_names(
        Seq::empty(),
        get_statement().predicates,
    ));
}

/// The statement that fetches the record with a given identifier.
pub fn get_query() -> (statement: SelectStatement<'static>)
    ensures
        statement@ == get_statement(),
{
    let mut statement = Query::select();
    statement.column("id").column("command").column("cwd").column("exit_code").column(
        "timestamp",
    ).from("history").where_("id");
    assert(statement@.selects =~= get_statement().selects);
    assert(statement@.from =~= get_statement().from);
    assert(statement@.predicates =~= get_statement().predicates);
    statement
}

/// The value that goes with the statement that fetches the record `id`.
pub fn get_params(id: i64) -> (params: Vec<Binding>)
    ensures
        bindings_of(params@) == get_bindings(id),
{
    let mut params: Vec<Binding> = Vec::new();
    bind_integer(&mut params, bind_parameter("", "id"), id);
    proof {
        reveal_strlit("");
        assert(""@ =~= Seq::<char>::empty());
        assert(bindings_of(params@) =~= get_bindings(id));
    }
    params
}

/// The record that a fetch found: the first row, or none where there is no row.
pub fn first_row(rows: Vec<History>) -> (found: Option<History>)
    ensures
        rows.len() == 0 ==> found is None,
        rows.len() > 0 ==> found == Some(rows[0]),
{
    let mut rows = rows;
    if rows.len() == 0 {
        None
    } else {
        Some(rows.swap_remove(0))
    }
}

// ---------------------------------------------------------------------------------------------
// Updating a record
// ---------------------------------------------------------------------------------------------

/// The statement that updates a record: it sets every field but the identifier, on the row
/// with the record's identifier.
pub open spec fn update_statement() -> UpdateView {
    UpdateView {
        columns: seq!["command"@, "cwd"@, "exit_code"@, "timestamp"@],
        table: "history"@,
        predicates: seq![equals("id"@)],
    }
}

/// The values that go with [`update_statement`] for a record.
pub open spec fn update_bindings(h: HistoryView) -> Seq<BindingView> {
    seq![
        text_binding(":"@ + "command"@, h.command),
        text_binding(":"@ + "cwd"@, h.cwd),
        integer_binding(":"@ + "exit_code"@, h.exit_code),
        integer_binding(":"@ + "timestamp"@, h.timestamp),
        integer_binding(bind_name("w_"@, "id"@), h.id),
    ]
}

/// Every parameter of the statement that updates a record has its value: first those of
/// the fields that are set, then that of the condition.
pub proof fn lemma_update_binds_each_parameter(h: HistoryView)
    ensures
        names_bound(update_bindings(h)) == placeholders(update_statement().columns) + bind_names(
            "w_"@,
            update_statement().predicates,
        ),
{
    assert(names_bound(update_bindings(h)) =~= placeholders(update_statement().columns)
        + bind_names("w_"@, update_statement().predicates));
}

/// The statement that updates a record.
pub fn update_query() -> (statement: UpdateStatement<'static>)
    ensures
        statement@ == update_statement(),
{
    let mut statement = Query::update();
    statement.table("history").column("command").column("cwd").column("exit_code").column(
        "timestamp",
    ).where_("id");
    assert(statement@.columns =~= update_statement().columns);
    assert(statement@.predicates =~= update_statement().predicates);
    statement
}

/// The values that go with the statement that updates `history`.
pub fn update_params(history: &History) -> (params: Vec<Binding>)
    ensures
        bindings_of(params@) == update_bindings(history@),
{
    let mut params: Vec<Binding> = Vec::new();
    bind_text(&mut params, placeholder("command"), history.command.as_str());
    bind_text(&mut params, placeholder("cwd"), history.cwd.as_str());
    bind_integer(&mut params, placeholder("exit_code"), history.exit_code);
    bind_integer(&mut params, placeholder("timestamp"), history.timestamp);
    bind_integer(&mut params, bind_parameter("w_", "id"), history.id);
    assert(bindings_of(params@) =~= update_bindings(history@));
    params
}

/// The error for a record that has no identifier yet.
pub fn invalid_id() -> (error: DatabaseError)
    ensures
        error.kind == ErrorKind::InvalidId,
        error.msg@ == "Cannot update object with -1 ID, try save first."@,
{
    DatabaseError {
        kind: ErrorKind::InvalidId,
        msg: "Cannot update object with -1 ID, try save first.".to_owned(),
    }
}

/// What an update that changed `changed` rows means: one row is success, any other number
/// is an error, be it that no row has the identifier or that several have it.
pub fn update_outcome(id: i64, changed: usize) -> (outcome: Result<(), DatabaseError>)
    ensures
        changed == 1 <==> outcome is Ok,
        outcome matches Err(e) ==> e.kind == ErrorKind::RowCountMismatch && e.msg@
            == "Update affected "@ + decimal(changed as nat) + " rows, expected 1 for ID "@
            + signed_decimal(id as int),
{
    if changed == 1 {
        Ok(())
    } else {
        let mut msg = String::new();
        msg.append("Update affected ");
        push_decimal(&mut msg, changed as u64);
        msg.append(" rows, expected 1 for ID ");
        push_signed_decimal(&mut msg, id);
        assert(msg@ =~= "Update affected "@ + decimal(changed as nat)
            + " rows, expected 1 for ID "@ + signed_decimal(id as int));
        Err(DatabaseError { kind: ErrorKind::RowCountMismatch, msg })
    }
}

// ---------------------------------------------------------------------------------------------
// Deleting a record
// ---------------------------------------------------------------------------------------------

/// The statement that deletes the record with a given identifier.
pub open spec fn delete_statement() -> DeleteView {
    DeleteView { table: "history"@, predicates: seq![equals("id"@)] }
}

/// The value that goes with [`delete_statement`] for an identifier.
pub open spec fn delete_bindings(id: i64) -> Seq<BindingView> {
    seq![integer_binding(bind_name("w_"@, "id"@), id)]
}

/// The one parameter of the statement that deletes a record has its value.
pub proof fn lemma_delete_binds_each_parameter(id: i64)
    ensures
        names_bound(delete_bindings(id)) == bind_names("w_"@, delete_statement().predicates),
{
    assert(names_bound(delete_bindings(id)) =~= bind_names(
        "w_"@,
        delete_statement().predicates,
    ));
}

/// The statement that deletes the record with a given identifier.
pub fn delete_query() -> (statement: DeleteStatement<'static>)
    ensures
        statement@ == delete_statement(),
{
    let mut statement = Query::delete();
    statement.table("history").where_("id");
    assert(statement@.predicates =~= delete_statement().predicates);
    statement
}

/// The value that goes with the statement that deletes the record `id`.
pub fn delete_params(id: i64) -> (params: Vec<Binding>)
    ensures
        bindings_of(params@) == delete_bindings(id),
{
    let mut params: Vec<Binding> = Vec::new();
    bind_integer(&mut params, bind_parameter("w_", "id"), id);
    assert(bindings_of(params@) =~= delete_bindings(id));
    params
}

/// What a deletion that changed `changed` rows means: no row and one row are success, for
/// to delete what is not there is no error. More rows than one cannot share an identifier,
/// so any greater number is an error.
pub fn delete_outcome(id: i64, changed: usize) -> (outcome: Result<(), DatabaseError>)
    ensures
        changed <= 1 <==> outcome is Ok,
        outcome matches Err(e) ==> e.kind == ErrorKind::RowCountMismatch && e.msg@
            == "Unexpected number of rows ("@ + decimal(changed as nat)
            + ") affected during deletion for id "@ + signed_decimal(id as int),
{
    if changed <= 1 {
        Ok(())
    } else {
        let mut msg = String::new();
        msg.append("Unexpected number of rows (");
        push_decimal(&mut msg, changed as u64);
        msg.append(") affected during deletion for id ");
        push_signed_decimal(&mut msg, id);
        assert(msg@ =~= "Unexpected number of rows ("@ + decimal(changed as nat)
            + ") affected during deletion for id "@ + signed_decimal(id as int));
        Err(DatabaseError { kind: ErrorKind::RowCountMismatch, msg })
    }
}

// ---------------------------------------------------------------------------------------------
// Counting the records
// ---------------------------------------------------------------------------------------------

/// The statement that counts the records.
pub open spec fn total_statement() -> SelectView {
    SelectView {
        from: seq!["history"@],
        selects: seq![SelectItem { expr: "count("@ + "*"@ + ")"@, alias: Some("count"@) }],
        predicates: Seq::empty(),
        limit: None,
        orderby: None,
    }
}

/// The statement that counts the records.
pub fn total_query() -> (statement: SelectStatement<'static>)
    ensures
        statement@ == total_statement(),
{
    let mut statement = Query::select();
    statement.count("*", "count").from("history");
    assert(statement@.selects =~= total_statement().selects);
    assert(statement@.from =~= total_statement().from);
    statement
}

// ---------------------------------------------------------------------------------------------
// Searching
// ---------------------------------------------------------------------------------------------

/// What the filters of a search say.
pub struct FiltersView {
    pub exit: Option<i64>,
    pub cwd: Option<Seq<char>>,
    pub limit: Option<usize>,
    pub mode: MatchMode,
}

/// What the given filters say.
pub open spec fn filters_of(filters: HistoryFilters) -> FiltersView {
    FiltersView {
        exit: filters.exit,
        cwd: match filters.cwd {
            Some(cwd) => Some(cwd@),
            None => None,
        },
        limit: filters.limit,
        mode: filters.mode,
    }
}

/// The condition of a full-text search.
pub open spec fn full_text_predicates(query: Seq<char>) -> Seq<Predicate> {
    if query.len() > 0 {
        seq![Predicate { clause: "fts.command"@, operator: Some("MATCH"@) }]
    } else {
        Seq::empty()
    }
}

/// The condition of the filter on the exit code.
pub open spec fn exit_predicates(exit: Option<i64>) -> Seq<Predicate> {
    match exit {
        Some(_) => seq![equals("h.exit_code"@)],
        None => Seq::empty(),
    }
}

/// The condition of the filter on the working directory.
pub open spec fn cwd_predicates(cwd: Option<Seq<char>>) -> Seq<Predicate> {
    match cwd {
        Some(_) => seq![equals("h.cwd"@)],
        None => Seq::empty(),
    }
}

/// The statement of a search.
///
/// An empty query selects from the history table itself. Any other selects from the
/// full-text index joined with the history table, and matches the index against the query.
/// Each filter that is set adds one condition. The rows come with the most recent first,
/// and no more of them than the limit allows.
pub open spec fn search_statement(query: Seq<char>, filters: FiltersView) -> SelectView {
    SelectView {
        from: if query.len() > 0 {
            seq!["history_fts fts JOIN history h ON h.id = fts.rowid"@]
        } else {
            seq!["history h"@]
        },
        selects: seq![
            column("h.id"@),
            column("h.command"@),
            column("h.cwd"@),
            column("h.exit_code"@),
            column("h.timestamp"@),
        ],
        predicates: full_text_predicates(query) + exit_predicates(filters.exit) + cwd_predicates(
            filters.cwd,
        ),
        limit: filters.limit,
        orderby: Some(("timestamp"@, "DESC"@)),
    }
}

/// The values that go with [`search_statement`]: the match expression of the query, the
/// exit code and the working directory, each only where its condition is there.
pub open spec fn search_bindings(query: Seq<char>, filters: FiltersView) -> Seq<BindingView> {
    (if query.len() > 0 {
        seq![
            text_binding(
                bind_name(Seq::empty(), "fts.command"@),
                match_parameter(query, filters.mode),
            ),
        ]
    } else {
        Seq::empty()
    }) + (match filters.exit {
        Some(exit) => seq![integer_binding(bind_name(Seq::empty(), "h.exit_code"@), exit)],
        None => Seq::empty(),
    }) + (match filters.cwd {
        Some(cwd) => seq![text_binding(bind_name(Seq::empty(), "h.cwd"@), cwd)],
        None => Seq::empty(),
    })
}

/// Every condition of a search has the value of its parameter, under the parameter's name
/// and in the condition's place.
pub proof fn lemma_search_binds_each_parameter(query: Seq<char>, filters: FiltersView)
    ensures
        names_bound(search_bindings(query, filters)) == bind_names(
            Seq::empty(),
            search_statement(query, filters).predicates,
        ),
{
    assert(names_bound(search_bindings(query, filters)) =~= bind_names(
        Seq::empty(),
        search_statement(query, filters).predicates,
    ));
}

/// The statement of the search for `query` under `filters`.
pub fn search_query(query: &str, filters: &HistoryFilters) -> (statement: SelectStatement<
    'static,
>)
    ensures
        statement@ == search_statement(query@, filters_of(*filters)),
{
    let ghost wanted = search_statement(query@, filters_of(*filters));
    let mut statement = Query::select();
    statement.column("h.id").column("h.command").column("h.cwd").column("h.exit_code").column(
        "h.timestamp",
    ).orderby("timestamp", "DESC");
    assert(statement@.selects =~= wanted.selects);
    if query.is_empty() {
        statement.from("history h");
    } else {
        statement.from("history_fts fts JOIN history h ON h.id = fts.rowid").match_fts(
            "fts.command",
        );
    }
    assert(statement@.from =~= wanted.from);
    assert(statement@.predicates =~= full_text_predicates(query@));
    if filters.exit.is_some() {
        statement.where_("h.exit_code");
    }
    assert(statement@.predicates =~= full_text_predicates(query@) + exit_predicates(
        filters.exit,
    ));
    if filters.cwd.is_some() {
        statement.where_("h.cwd");
    }
    assert(statement@.predicates =~= wanted.predicates);
    match filters.limit {
        Some(limit) => {
            statement.limit(limit);
        },
        None => {},
    }
    statement
}

/// The values that go with the statement of the search for `query` under `filters`.
pub fn search_params(query: &str, filters: &HistoryFilters) -> (params: Vec<Binding>)
    ensures
        bindings_of(params@) == search_bindings(query@, filters_of(*filters)),
{
    let mut params: Vec<Binding> = Vec::new();
    proof {
        reveal_strlit("");
        assert(""@ =~= Seq::<char>::empty());
    }
    if !query.is_empty() {
        let expression = generate_fts5_match_parameter(query, filters.mode);
        bind_text(&mut params, bind_parameter("", "fts.command"), expression.as_str());
    }
    match filters.exit {
        Some(exit) => {
            bind_integer(&mut params, bind_parameter("", "h.exit_code"), exit);
        },
        None => {},
    }
    match &filters.cwd {
        Some(cwd) => {
            bind_text(&mut params, bind_parameter("", "h.cwd"), cwd.as_str());
        },
        None => {},
    }
    assert(bindings_of(params@) =~= search_bindings(query@, filters_of(*filters)));
    params
}

} // verus!
