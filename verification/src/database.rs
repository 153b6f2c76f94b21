//! The store of history records and the errors it reports.

use vstd::prelude::*;
use vstd::string::StringExecFns;
use crate::history::model::{History, NOT_SET};
use crate::HistoryFilters;

pub mod sqlite;

verus! {

/// What went wrong in the store.
#[derive(Debug, Clone, Copy, PartialEq, Eq, Structural)]
pub enum ErrorKind {
    /// A record without an identifier was given where one that is persisted is needed.
    InvalidId,
    /// A statement changed another number of rows than it may.
    RowCountMismatch,
    /// No script is known that migrates the schema on from this version.
    MissingScript(u32),
    /// The engine reported an error.
    Engine,
}

/// An error of the store, with a message for the reader.
#[derive(Debug, Clone)]
pub struct DatabaseError {
    pub kind: ErrorKind,
    pub msg: String,
}

/// What the text of an error starts with.
pub open spec fn error_preamble() -> Seq<char> {
    "Encountered a database error: "@
}

impl DatabaseError {
    /// The error as text: the preamble and the message.
    pub fn to_string(&self) -> (text: String)
        ensures
            text@ == error_preamble() + self.msg@,
    {
        let mut text = String::new();
        text.append("Encountered a database error: ");
        text.append(self.msg.as_str());
        assert(text@ =~= error_preamble() + self.msg@);
        text
    }
}

/// A store of history records.
pub trait Database {
    /// Saves one record and returns the identifier that the store assigned to it.
    fn save(&mut self, history: &History) -> Result<i64, DatabaseError>;

    /// Saves the records, all of them or none, and returns their identifiers in order.
    fn save_bulk(&mut self, history: &[History]) -> (saved: Result<Vec<i64>, DatabaseError>)
        ensures
            saved matches Ok(ids) ==> ids.len() == history.len(),
    ;

    /// Fetches the record with the given identifier. `None` says that there is none.
    fn get(&self, id: i64) -> Result<Option<History>, DatabaseError>;

    /// The number of records in the store.
    fn get_history_total(&self) -> Result<i64, DatabaseError>;

    /// Writes all fields of the record over the stored record with the same identifier.
    /// A record without an identifier is refused.
    fn update(&self, history: &History) -> (updated: Result<(), DatabaseError>)
        ensures
            history.id == NOT_SET ==> updated is Err && updated->Err_0.kind
                == ErrorKind::InvalidId,
    ;

    /// Deletes the record with the given identifier. That there is none is no error.
    fn delete(&self, id: i64) -> Result<(), DatabaseError>;

    /// Searches the records and returns the matching ones, the most recent first.
    fn search(&self, query: &str, filters: HistoryFilters) -> Result<Vec<History>, DatabaseError>;
}

} // verus!
