//! The calls into the SQL engine.
//!
//! Nothing here is proved: each function hands its arguments to one function of `rusqlite`
//! and the result back. What the engine answers depends on the database, so no function
//! promises anything of its result. The statements and the values that reach the engine,
//! and what becomes of its answers, are decided by the verified functions that call these.

use vstd::prelude::*;
use super::bind::{Binding, SqlValue};
use crate::history::model::History;

verus! {

/// A connection to a database.
#[verifier::external_type_specification]
#[verifier::external_body]
pub struct ExConnection(rusqlite::Connection);

/// An error of the engine.
#[verifier::external_type_specification]
#[verifier::external_body]
pub struct ExError(rusqlite::Error);

/// An open transaction on a connection.
#[verifier::external_type_specification]
#[verifier::external_body]
pub struct ExTransaction<'conn>(rusqlite::Transaction<'conn>);

/// A prepared statement on a connection.
#[verifier::external_type_specification]
#[verifier::external_body]
pub struct ExStatement<'conn>(rusqlite::Statement<'conn>);

/// Opens the database file at `path` with the given open flags of the engine.
///
/// Wraps `rusqlite::Connection::open_with_flags`.
#[verifier::external_body]
pub(crate) fn open(path: &str, flags: i32) -> (opened: Result<
    rusqlite::Connection,
    rusqlite::Error,
>) {
    rusqlite::Connection::open_with_flags(path, rusqlite::OpenFlags::from_bits_truncate(flags))
}

/// Begins a transaction, which lasts as long as the value that is returned.
///
/// Wraps `rusqlite::Connection::transaction`.
#[verifier::external_body]
pub(crate) fn begin<'conn>(conn: &'conn mut rusqlite::Connection) -> (began: Result<
    rusqlite::Transaction<'conn>,
    rusqlite::Error,
>) {
    conn.transaction()
}

/// Makes the transaction roll back when it is dropped without a commit.
///
/// Wraps `rusqlite::Transaction::set_drop_behavior`.
#[verifier::external_body]
pub(crate) fn rollback_on_drop(tx: &mut rusqlite::Transaction<'_>) {
    tx.set_drop_behavior(rusqlite::DropBehavior::Rollback)
}

/// The connection that the transaction runs on.
///
/// Wraps the `Deref` of `rusqlite::Transaction`.
#[verifier::external_body]
pub(crate) fn connection_of<'a>(tx: &'a rusqlite::Transaction<'_>) -> (conn:
    &'a rusqlite::Connection) {
    &**tx
}

/// Commits the transaction and ends it.
///
/// Wraps `rusqlite::Transaction::commit`.
#[verifier::external_body]
pub(crate) fn commit(tx: rusqlite::Transaction<'_>) -> (committed: Result<(), rusqlite::Error>) {
    tx.commit()
}

/// Runs a batch of statements that take no parameter.
///
/// Wraps `rusqlite::Connection::execute_batch`.
#[verifier::external_body]
pub(crate) fn execute_batch(conn: &rusqlite::Connection, sql: &str) -> (ran: Result<
    (),
    rusqlite::Error,
>) {
    conn.execute_batch(sql)
}

/// Runs one statement that returns no rows, with each value bound to the parameter of its
/// name, and returns the number of rows that the statement changed.
///
/// Wraps `rusqlite::Connection::execute`.
#[verifier::external_body]
pub(crate) fn run(conn: &rusqlite::Connection, sql: &str, params: &Vec<Binding>) -> (changed:
    Result<usize, rusqlite::Error>) {
    let named: Vec<(&str, &dyn rusqlite::ToSql)> = params.iter().map(
        |p| match &p.value {
            SqlValue::Integer(number) => (p.name.as_str(), number as &dyn rusqlite::ToSql),
            SqlValue::Text(text) => (p.name.as_str(), text as &dyn rusqlite::ToSql),
        },
    ).collect();
    conn.execute(sql, named.as_slice())
}

/// Runs one statement that takes no parameter and returns one row, and returns the integer
/// in the first column of the row.
///
/// Wraps `rusqlite::Connection::query_row`, with `rusqlite::Row::get` for the column.
#[verifier::external_body]
pub(crate) fn read_integer(conn: &rusqlite::Connection, sql: &str) -> (value: Result<
    i64,
    rusqlite::Error,
>) {
    conn.query_row(sql, [], |row| row.get(0))
}

/// Prepares a statement.
///
/// Wraps `rusqlite::Connection::prepare`.
#[verifier::external_body]
pub(crate) fn prepare<'conn>(conn: &'conn rusqlite::Connection, sql: &str) -> (prepared: Result<
    rusqlite::Statement<'conn>,
    rusqlite::Error,
>) {
    conn.prepare(sql)
}

/// Runs a statement that inserts one row, with each value bound to the parameter of its
/// name, and returns the identifier of the row.
///
/// Wraps `rusqlite::Statement::insert`.
#[verifier::external_body]
pub(crate) fn insert(stmt: &mut rusqlite::Statement<'_>, params: &Vec<Binding>) -> (inserted:
    Result<i64, rusqlite::Error>) {
    let named: Vec<(&str, &dyn rusqlite::ToSql)> = params.iter().map(
        |p| match &p.value {
            SqlValue::Integer(number) => (p.name.as_str(), number as &dyn rusqlite::ToSql),
            SqlValue::Text(text) => (p.name.as_str(), text as &dyn rusqlite::ToSql),
        },
    ).collect();
    stmt.insert(named.as_slice())
}

/// Runs a statement that returns no rows, with each value bound to the parameter of its
/// name, and returns the number of rows that the statement changed.
///
/// Wraps `rusqlite::Statement::execute`.
#[verifier::external_body]
pub(crate) fn execute(stmt: &mut rusqlite::Statement<'_>, params: &Vec<Binding>) -> (changed:
    Result<usize, rusqlite::Error>) {
    let named: Vec<(&str, &dyn rusqlite::ToSql)> = params.iter().map(
        |p| match &p.value {
            SqlValue::Integer(number) => (p.name.as_str(), number as &dyn rusqlite::ToSql),
            SqlValue::Text(text) => (p.name.as_str(), text as &dyn rusqlite::ToSql),
        },
    ).collect();
    stmt.execute(named.as_slice())
}

/// Runs a statement that returns history rows, with each value bound to the parameter of
/// its name, and returns the rows in the order in which the engine gives them. Each row is
/// read by the names of its five columns.
///
/// Wraps `rusqlite::Statement::query_map`, with `rusqlite::Row::get` for each column.
#[verifier::external_body]
pub(crate) fn query_history(stmt: &mut rusqlite::Statement<'_>, params: &Vec<Binding>) -> (rows:
    Result<Vec<History>, rusqlite::Error>) {
    let named: Vec<(&str, &dyn rusqlite::ToSql)> = params.iter().map(
        |p| match &p.value {
            SqlValue::Integer(number) => (p.name.as_str(), number as &dyn rusqlite::ToSql),
            SqlValue::Text(text) => (p.name.as_str(), text as &dyn rusqlite::ToSql),
        },
    ).collect();
    let rows = stmt.query_map(named.as_slice(), |row| Ok(History {
        id: row.get("id")?, timestamp: row.get("timestamp")?, command: row.get("command")?,
        cwd: row.get("cwd")?, exit_code: row.get("exit_code")?,
    }))?;
    rows.collect()
}

/// Runs a statement that takes no parameter and returns one row, and returns the integer in
/// the first column of the row.
///
/// Wraps `rusqlite::Statement::query_row`, with `rusqlite::Row::get` for the column.
#[verifier::external_body]
pub(crate) fn query_integer(stmt: &mut rusqlite::Statement<'_>) -> (value: Result<
    i64,
    rusqlite::Error,
>) {
    stmt.query_row([], |row| row.get(0))
}

/// The text of an error of the engine.
///
/// Wraps the `Display` of `rusqlite::Error`.
#[verifier::external_body]
pub(crate) fn message_of(error: &rusqlite::Error) -> (message: String) {
    format!("{error}")
}

} // verus!
