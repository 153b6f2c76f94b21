//! The store on an embedded SQL engine.

use vstd::prelude::*;
use vstd::string::StringExecFns;
use crate::text::edit::{cuts, push_replacing_char, word_ranges};
use crate::text::{chars_of, join, lemma_join_step, replace_char, words};
use crate::config::Config;
use crate::database::{Database, DatabaseError, ErrorKind};
use crate::history::model::{History, NOT_SET};
use crate::{HistoryFilters, MatchMode};
use migrate::{get_user_version, run_migrations, SchemaVersion, LATEST_STABLE_SCHEMA,
    LATEST_VERSION};
use query::SqlString;
use request::{delete_outcome, delete_params, delete_query, first_row, get_params, get_query,
    invalid_id, save_params, save_query, search_params, search_query, total_query,
    update_outcome, update_params, update_query};

pub mod bind;
pub mod engine;
pub mod migrate;
pub mod query;
pub mod request;

verus! {

/// `s` between double quotes, with every double quote inside it doubled.
pub open spec fn quoted(s: Seq<char>) -> Seq<char> {
    "\""@ + replace_char(s, '"', "\"\""@) + "\""@
}

/// One prefix term for each word: the word quoted, then a star.
pub open spec fn prefix_terms(words: Seq<Seq<char>>) -> Seq<Seq<char>> {
    Seq::new(words.len(), |i: int| quoted(words[i]) + "*"@)
}

/// The full-text match expression of a query.
///
/// An empty query gives the empty expression, which stands for no full-text filter. In
/// fuzzy mode every whitespace-separated word becomes a prefix term of its own and the terms
/// are joined by one space, so that each of them has to match. In prefix mode the whole
/// query is one quoted phrase, anchored at the start of the column by the caret in front
/// and open at the end by the star behind.
pub open spec fn match_parameter(query: Seq<char>, mode: MatchMode) -> Seq<char> {
    if query.len() == 0 {
        Seq::empty()
    } else {
        match mode {
            MatchMode::Fuzzy => join(prefix_terms(words(query)), " "@),
            MatchMode::Prefix => "^"@ + quoted(query) + "*"@,
        }
    }
}

/// Appends `chars[from..to]` to `out` as a quoted text.
fn push_quoted(out: &mut String, chars: &Vec<char>, from: usize, to: usize)
    requires
        from <= to <= chars.len(),
    ensures
        final(out)@ == old(out)@ + quoted(chars@.subrange(from as int, to as int)),
{
    out.append("\"");
    push_replacing_char(out, chars, from, to, '"', "\"\"");
    out.append("\"");
    assert(out@ =~= old(out)@ + quoted(chars@.subrange(from as int, to as int)));
}

/// Generates the full-text match expression of `query` in the given mode, for use as the
/// right-hand operand of a `MATCH` operator.
#[must_use]
pub fn generate_fts5_match_parameter(query: &str, mode: MatchMode) -> (expr: String)
    ensures
        expr@ == match_parameter(query@, mode),
        query@.len() == 0 ==> expr@.len() == 0,
{
    let mut expr = String::new();
    let chars = chars_of(query);
    if chars.len() == 0 {
        return expr;
    }
    match mode {
        MatchMode::Fuzzy => {
            let ranges = word_ranges(&chars);
            let ghost terms = prefix_terms(words(query@));
            let mut i: usize = 0;
            proof {
                assert(cuts(chars@, ranges@).len() == ranges.len());
                assert(expr@ =~= join(terms.take(0), " "@));
            }
            while i < ranges.len()
                invariant
                    i <= ranges.len(),
                    chars@ == query@,
                    ranges.len() == words(query@).len(),
                    cuts(chars@, ranges@) == words(chars@),
                    forall|k: int|
                        0 <= k < ranges.len() ==> (#[trigger] ranges[k]).0 < ranges[k].1
                            <= chars.len(),
                    terms == prefix_terms(words(query@)),
                    expr@ == join(terms.take(i as int), " "@),
                decreases ranges.len() - i,
            {
                if i != 0 {
                    expr.append(" ");
                }
                let (from, to) = ranges[i];
                push_quoted(&mut expr, &chars, from, to);
                expr.append("*");
                proof {
                    lemma_join_step(terms, " "@, i as int);
                    assert(cuts(chars@, ranges@)[i as int] == chars@.subrange(
                        from as int,
                        to as int,
                    ));
                    assert(terms[i as int] == quoted(words(query@)[i as int]) + "*"@);
                    assert(expr@ =~= join(terms.take(i + 1), " "@));
                }
                i += 1;
            }
            proof {
                assert(terms.take(ranges.len() as int) =~= terms);
            }
        },
        MatchMode::Prefix => {
            expr.append("^");
            push_quoted(&mut expr, &chars, 0, chars.len());
            expr.append("*");
            proof {
                assert(chars@.subrange(0, chars.len() as int) =~= query@);
                assert(expr@ =~= "^"@ + quoted(query@) + "*"@);
            }
        },
    }
    expr
}

/// The error that stands for an error of the engine: it holds the engine's own text.
pub fn engine_error(error: &rusqlite::Error) -> (converted: DatabaseError)
    ensures
        converted.kind == ErrorKind::Engine,
{
    DatabaseError { kind: ErrorKind::Engine, msg: engine::message_of(error) }
}

/// What an answer of the engine means to the caller of the store: a value is handed on as it
/// is, and an error of the engine becomes an error of the store that holds the engine's text.
pub fn engine_outcome<T>(answer: Result<T, rusqlite::Error>) -> (outcome: Result<
    T,
    DatabaseError,
>)
    ensures
        answer is Ok ==> outcome is Ok && outcome->Ok_0 == answer->Ok_0,
        answer is Err ==> outcome is Err && outcome->Err_0.kind == ErrorKind::Engine,
{
    match answer {
        Ok(value) => Ok(value),
        Err(e) => Err(engine_error(&e)),
    }
}

/// The name of the database file where the configuration names none.
pub const DATABASE_FILE: &'static str = "raven.db";

/// The open flag of the engine for reading and writing a database that exists.
pub const OPEN_READ_WRITE: i32 = 0x02;

/// The open flags of the engine for reading and writing a database, which is created where
/// it does not exist.
pub const OPEN_READ_WRITE_CREATE: i32 = 0x06;

/// Where the database lies: the directory and the file that the configuration names, with
/// `data_dir` for the directory and [`DATABASE_FILE`] for the file that it does not name.
pub fn database_location(config: &Config, data_dir: &str) -> (location: (String, String))
    ensures
        location.0@ == match config.database.database_path {
            Some(path) => path@,
            None => data_dir@,
        },
        location.1@ == match config.database.database_file {
            Some(file) => file@,
            None => DATABASE_FILE@,
        },
{
    let directory = match &config.database.database_path {
        Some(path) => path.clone(),
        None => data_dir.to_owned(),
    };
    let file = match &config.database.database_file {
        Some(file) => file.clone(),
        None => DATABASE_FILE.to_owned(),
    };
    (directory, file)
}

/// The store on a database of the SQL engine.
pub struct Sqlite {
    pub conn: rusqlite::Connection,
}

impl Sqlite {
    /// Opens the database at `path` and brings its schema to the latest version.
    ///
    /// A database that exists is opened and handed to [`Sqlite::migrated`] with the version
    /// that it tells, or with the error of reading it. Where no database can be opened at
    /// `path`, one is created there and handed on as a database of version 0.
    pub fn new(path: &str) -> (opened: Result<Sqlite, DatabaseError>)
        ensures
            opened matches Err(e) ==> e.kind == ErrorKind::Engine,
    {
        match engine::open(path, OPEN_READ_WRITE) {
            Ok(conn) => {
                let version = get_user_version(&conn);
                Sqlite::migrated(conn, version)
            },
            Err(_) => match engine_outcome(engine::open(path, OPEN_READ_WRITE_CREATE)) {
                Ok(conn) => Sqlite::migrated(conn, Ok(SchemaVersion::V0.to_u32())),
                Err(e) => Err(e),
            },
        }
    }

    /// The store on an open database of which `version` was read.
    ///
    /// A database whose version could not be read is not used: there is no way to tell
    /// which schema it holds, and the error of the reading is the result. A database at the
    /// latest version or beyond is used as it is. Any other is migrated to the latest
    /// version first, and is not used where the migration fails.
    pub fn migrated(conn: rusqlite::Connection, version: Result<u32, DatabaseError>) -> (opened:
        Result<Sqlite, DatabaseError>)
        ensures
            version matches Err(e) ==> opened == Err::<Sqlite, DatabaseError>(e),
            version matches Ok(v) && v >= LATEST_VERSION ==> opened == Ok::<
                Sqlite,
                DatabaseError,
            >(Sqlite { conn }),
            version is Ok ==> (opened matches Err(e) ==> e.kind == ErrorKind::Engine),
    {
        match version {
            Err(e) => Err(e),
            Ok(current) => {
                if current >= LATEST_STABLE_SCHEMA.to_u32() {
                    Ok(Sqlite { conn })
                } else {
                    let mut conn = conn;
                    match run_migrations(&mut conn, current, Some(LATEST_STABLE_SCHEMA)) {
                        Ok(()) => Ok(Sqlite { conn }),
                        Err(e) => Err(e),
                    }
                }
            },
        }
    }

    /// Saves the records one by one through a statement that is prepared once.
    fn insert_all(conn: &rusqlite::Connection, history: &[History]) -> (saved: Result<
        Vec<i64>,
        DatabaseError,
    >)
        ensures
            saved matches Ok(ids) ==> ids.len() == history.len(),
            saved matches Err(e) ==> e.kind == ErrorKind::Engine,
    {
        let sql = save_query().to_sql();
        let mut stmt = match engine::prepare(conn, sql.as_str()) {
            Ok(stmt) => stmt,
            Err(e) => {
                return Err(engine_error(&e));
            },
        };
        let mut row_ids: Vec<i64> = Vec::new();
        let mut i: usize = 0;
        while i < history.len()
            invariant
                i <= history.len(),
                row_ids.len() == i,
            decreases history.len() - i,
        {
            let params = save_params(&history[i]);
            match engine::insert(&mut stmt, &params) {
                Ok(row_id) => row_ids.push(row_id),
                Err(e) => {
                    return Err(engine_error(&e));
                },
            }
            i += 1;
        }
        Ok(row_ids)
    }
}

impl Database for Sqlite {
    /// Saves one record and returns the identifier of the new row. The identifier that
    /// the record carries is not stored.
    fn save(&mut self, history: &History) -> (saved: Result<i64, DatabaseError>)
        ensures
            saved matches Err(e) ==> e.kind == ErrorKind::Engine,
    {
        let sql = save_query().to_sql();
        let params = save_params(history);
        let mut stmt = match engine::prepare(&self.conn, sql.as_str()) {
            Ok(stmt) => stmt,
            Err(e) => {
                return Err(engine_error(&e));
            },
        };
        engine_outcome(engine::insert(&mut stmt, &params))
    }

    /// Saves the records in one transaction and returns the identifiers of the new rows in
    /// the order of the records. Where one record fails, the transaction is rolled back,
    /// none of the records is saved, and the error is that of the first failure.
    fn save_bulk(&mut self, history: &[History]) -> (saved: Result<Vec<i64>, DatabaseError>)
        ensures
            saved matches Err(e) ==> e.kind == ErrorKind::Engine,
    {
        let mut tx = match engine::begin(&mut self.conn) {
            Ok(tx) => tx,
            Err(e) => {
                return Err(engine_error(&e));
            },
        };
        engine::rollback_on_drop(&mut tx);
        let row_ids = match Sqlite::insert_all(engine::connection_of(&tx), history) {
            Ok(row_ids) => row_ids,
            Err(e) => {
                return Err(e);
            },
        };
        match engine_outcome(engine::commit(tx)) {
            Ok(()) => Ok(row_ids),
            Err(e) => Err(e),
        }
    }

    /// Fetches the record with the given identifier.
    fn get(&self, id: i64) -> (found: Result<Option<History>, DatabaseError>)
        ensures
            found matches Err(e) ==> e.kind == ErrorKind::Engine,
    {
        let sql = get_query().to_sql();
        let params = get_params(id);
        let mut stmt = match engine::prepare(&self.conn, sql.as_str()) {
            Ok(stmt) => stmt,
            Err(e) => {
                return Err(engine_error(&e));
            },
        };
        match engine_outcome(engine::query_history(&mut stmt, &params)) {
            Ok(rows) => Ok(first_row(rows)),
            Err(e) => Err(e),
        }
    }

    /// The number of records in the store.
    fn get_history_total(&self) -> (total: Result<i64, DatabaseError>)
        ensures
            total matches Err(e) ==> e.kind == ErrorKind::Engine,
    {
        let sql = total_query().to_sql();
        let mut stmt = match engine::prepare(&self.conn, sql.as_str()) {
            Ok(stmt) => stmt,
            Err(e) => {
                return Err(engine_error(&e));
            },
        };
        engine_outcome(engine::query_integer(&mut stmt))
    }

    /// Writes all fields of the record over the row with the record's identifier. A record
    /// without an identifier is refused before the engine is asked; that the engine changed
    /// another number of rows than one is an error as well.
    fn update(&self, history: &History) -> (updated: Result<(), DatabaseError>)
        ensures
            history.id == NOT_SET ==> updated->Err_0.msg@
                == "Cannot update object with -1 ID, try save first."@,
            history.id != NOT_SET ==> (updated matches Err(e) ==> e.kind == ErrorKind::Engine
                || e.kind == ErrorKind::RowCountMismatch),
    {
        if history.id == NOT_SET {
            return Err(invalid_id());
        }
        let sql = update_query().to_sql();
        let params = update_params(history);
        let mut stmt = match engine::prepare(&self.conn, sql.as_str()) {
            Ok(stmt) => stmt,
            Err(e) => {
                return Err(engine_error(&e));
            },
        };
        match engine_outcome(engine::execute(&mut stmt, &params)) {
            Ok(changed) => update_outcome(history.id, changed),
            Err(e) => Err(e),
        }
    }

    /// Deletes the row with the given identifier, if there is one.
    fn delete(&self, id: i64) -> (deleted: Result<(), DatabaseError>)
        ensures
            deleted matches Err(e) ==> e.kind == ErrorKind::Engine || e.kind
                == ErrorKind::RowCountMismatch,
    {
        let sql = delete_query().to_sql();
        let params = delete_params(id);
        match engine_outcome(engine::run(&self.conn, sql.as_str(), &params)) {
            Ok(changed) => delete_outcome(id, changed),
            Err(e) => Err(e),
        }
    }

    /// Searches the records for `query` under `filters` and returns the matching ones, the
    /// most recent first.
    fn search(&self, query: &str, filters: HistoryFilters) -> (found: Result<
        Vec<History>,
        DatabaseError,
    >)
        ensures
            found matches Err(e) ==> e.kind == ErrorKind::Engine,
    {
        let sql = search_query(query, &filters).to_sql();
        let params = search_params(query, &filters);
        let mut stmt = match engine::prepare(&self.conn, sql.as_str()) {
            Ok(stmt) => stmt,
            Err(e) => {
                return Err(engine_error(&e));
            },
        };
        engine_outcome(engine::query_history(&mut stmt, &params))
    }
}

} // verus!
