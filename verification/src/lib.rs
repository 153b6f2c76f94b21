//! A local store of shell command history: the records, the versioned schema of the
//! database that holds them, the statements that read and write it, and the import of
//! history files.

use vstd::prelude::*;

pub mod config;
pub mod database;
pub mod duration;
pub mod history;
pub mod import;
pub mod picker;
pub mod shell;
pub mod text;

verus! {

/// The matching mode of a full-text query.
#[derive(Clone, Copy, Debug, PartialEq, Eq)]
pub enum MatchMode {
    /// The whole query is one literal phrase that anchors at the start.
    Prefix,
    /// Every whitespace-separated token is an independent prefix term.
    Fuzzy,
}

impl Default for MatchMode {
    fn default() -> (mode: Self)
        ensures
            mode == MatchMode::Fuzzy,
    {
        MatchMode::Fuzzy
    }
}

/// Optional filters for a search over the history records.
#[derive(Clone, Debug)]
pub struct HistoryFilters {
    /// Keep only the commands that ended with this exit code.
    pub exit: Option<i64>,
    /// Keep only the commands that ran in this directory.
    pub cwd: Option<String>,
    /// Return no more rows than this.
    pub limit: Option<usize>,
    /// How the query text is matched.
    pub mode: MatchMode,
}

impl Default for HistoryFilters {
    fn default() -> (filters: Self)
        ensures
            filters.exit is None,
            filters.cwd is None,
            filters.limit is None,
            filters.mode == MatchMode::Fuzzy,
    {
        HistoryFilters { exit: None, cwd: None, limit: None, mode: MatchMode::Fuzzy }
    }
}

} // verus!
