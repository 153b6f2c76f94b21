//! One executed command and the ways to make a record of it.

use vstd::prelude::*;
use vstd::std_specs::convert::FromSpecImpl;

verus! {

/// The identifier of a record that the store has not assigned one yet, and the exit code of
/// a command that has not finished yet.
pub const NOT_SET: i64 = -1;

/// The working directory of a record whose directory is not known.
pub open spec fn unknown_cwd() -> Seq<char> {
    "unknown"@
}

/// A full row for a history record in the database.
///
/// * `id`: unique identifier, or -1 if not set.
/// * `timestamp`: when the command was run, in seconds since the Unix epoch, UTC.
/// * `command`: the command that was run; it may span several lines.
/// * `cwd`: the working directory.
/// * `exit_code`: the exit code of the command, or -1 if not set.
#[derive(Debug, Clone, PartialEq, Eq)]
pub struct History {
    pub id: i64,
    pub timestamp: i64,
    pub command: String,
    pub cwd: String,
    pub exit_code: i64,
}

/// What a [`History`] record says.
pub struct HistoryView {
    pub id: i64,
    pub timestamp: i64,
    pub command: Seq<char>,
    pub cwd: Seq<char>,
    pub exit_code: i64,
}

impl View for History {
    type V = HistoryView;

    open spec fn view(&self) -> HistoryView {
        HistoryView {
            id: self.id,
            timestamp: self.timestamp,
            command: self.command@,
            cwd: self.cwd@,
            exit_code: self.exit_code,
        }
    }
}

/// What the records of a list say, in order.
pub open spec fn history_views(list: Seq<History>) -> Seq<HistoryView> {
    Seq::new(list.len(), |i: int| list[i]@)
}

impl HistoryView {
    /// The record of a command that was just captured: no identifier and no exit code yet.
    pub open spec fn captured(timestamp: i64, command: Seq<char>, cwd: Seq<char>) -> HistoryView {
        HistoryView { id: NOT_SET, timestamp, command, cwd, exit_code: NOT_SET }
    }

    /// The record of a command that came from a history file: no identifier, no exit code
    /// and no known working directory.
    pub open spec fn imported(timestamp: i64, command: Seq<char>) -> HistoryView {
        HistoryView::captured(timestamp, command, unknown_cwd())
    }
}

/// The place of a field that a builder has not been given yet.
#[derive(Debug, Clone, Copy)]
pub struct Missing;

/// A record in the making. Each field is given once, in any order; `build` is there once
/// all of them are given.
#[derive(Debug, Clone)]
pub struct HistoryBuilder<I, T, C, W, E> {
    pub id: I,
    pub timestamp: T,
    pub command: C,
    pub cwd: W,
    pub exit_code: E,
}

impl History {
    /// A record that the store has not seen yet.
    fn new(timestamp: i64, command: String, cwd: String, exit_code: i64) -> (h: Self)
        ensures
            h@ == (HistoryView {
                id: NOT_SET,
                timestamp,
                command: command@,
                cwd: cwd@,
                exit_code,
            }),
    {
        History { id: NOT_SET, timestamp, command, cwd, exit_code }
    }

    /// Starts a record of which every field is given: none of them is given yet.
    pub fn builder() -> (b: HistoryBuilder<Missing, Missing, Missing, Missing, Missing>)
        ensures
            b == (HistoryBuilder {
                id: Missing,
                timestamp: Missing,
                command: Missing,
                cwd: Missing,
                exit_code: Missing,
            }),
    {
        HistoryBuilder {
            id: Missing,
            timestamp: Missing,
            command: Missing,
            cwd: Missing,
            exit_code: Missing,
        }
    }

    /// Starts the record of a command that is about to run: the time, the command and the
    /// working directory are to be given.
    pub fn capture() -> (b: HistoryCapturedBuilder<Missing, Missing, Missing>)
        ensures
            b == (HistoryCapturedBuilder { timestamp: Missing, command: Missing, cwd: Missing }),
    {
        HistoryCapturedBuilder { timestamp: Missing, command: Missing, cwd: Missing }
    }

    /// Starts the record of a command that comes from an import source: the time and the
    /// command are to be given.
    pub fn import() -> (b: HistoryImportedBuilder<Missing, Missing>)
        ensures
            b == (HistoryImportedBuilder { timestamp: Missing, command: Missing }),
    {
        HistoryImportedBuilder { timestamp: Missing, command: Missing }
    }
}

impl<T, C, W, E> HistoryBuilder<Missing, T, C, W, E> {
    /// Gives the identifier.
    pub fn id(self, id: i64) -> (b: HistoryBuilder<i64, T, C, W, E>)
        ensures
            b == (HistoryBuilder {
                id,
                timestamp: self.timestamp,
                command: self.command,
                cwd: self.cwd,
                exit_code: self.exit_code,
            }),
    {
        HistoryBuilder {
            id,
            timestamp: self.timestamp,
            command: self.command,
            cwd: self.cwd,
            exit_code: self.exit_code,
        }
    }
}

impl<I, C, W, E> HistoryBuilder<I, Missing, C, W, E> {
    /// Gives the time at which the command was run.
    pub fn timestamp(self, timestamp: i64) -> (b: HistoryBuilder<I, i64, C, W, E>)
        ensures
            b == (HistoryBuilder {
                id: self.id,
                timestamp,
                command: self.command,
                cwd: self.cwd,
                exit_code: self.exit_code,
            }),
    {
        HistoryBuilder {
            id: self.id,
            timestamp,
            command: self.command,
            cwd: self.cwd,
            exit_code: self.exit_code,
        }
    }
}

impl<I, T, W, E> HistoryBuilder<I, T, Missing, W, E> {
    /// Gives the command.
    pub fn command(self, command: String) -> (b: HistoryBuilder<I, T, String, W, E>)
        ensures
            b == (HistoryBuilder {
                id: self.id,
                timestamp: self.timestamp,
                command,
                cwd: self.cwd,
                exit_code: self.exit_code,
            }),
    {
        HistoryBuilder {
            id: self.id,
            timestamp: self.timestamp,
            command,
            cwd: self.cwd,
            exit_code: self.exit_code,
        }
    }
}

impl<I, T, C, E> HistoryBuilder<I, T, C, Missing, E> {
    /// Gives the working directory.
    pub fn cwd(self, cwd: String) -> (b: HistoryBuilder<I, T, C, String, E>)
        ensures
            b == (HistoryBuilder {
                id: self.id,
                timestamp: self.timestamp,
                command: self.command,
                cwd,
                exit_code: self.exit_code,
            }),
    {
        HistoryBuilder {
            id: self.id,
            timestamp: self.timestamp,
            command: self.command,
            cwd,
            exit_code: self.exit_code,
        }
    }
}

impl<I, T, C, W> HistoryBuilder<I, T, C, W, Missing> {
    /// Gives the exit code.
    pub fn exit_code(self, exit_code: i64) -> (b: HistoryBuilder<I, T, C, W, i64>)
        ensures
            b == (HistoryBuilder {
                id: self.id,
                timestamp: self.timestamp,
                command: self.command,
                cwd: self.cwd,
                exit_code,
            }),
    {
        HistoryBuilder {
            id: self.id,
            timestamp: self.timestamp,
            command: self.command,
            cwd: self.cwd,
            exit_code,
        }
    }
}

impl HistoryBuilder<i64, i64, String, String, i64> {
    /// The record with the fields that were given.
    pub fn build(self) -> (h: History)
        ensures
            h == (History {
                id: self.id,
                timestamp: self.timestamp,
                command: self.command,
                cwd: self.cwd,
                exit_code: self.exit_code,
            }),
    {
        History {
            id: self.id,
            timestamp: self.timestamp,
            command: self.command,
            cwd: self.cwd,
            exit_code: self.exit_code,
        }
    }
}

/// What is known of a command when it starts: the data required before a history record can
/// be inserted into the database.
#[derive(Debug, Clone)]
pub struct HistoryCaptured {
    timestamp: i64,
    command: String,
    cwd: String,
}

/// The data of a captured command in the making.
#[derive(Debug, Clone)]
pub struct HistoryCapturedBuilder<T, C, W> {
    pub timestamp: T,
    pub command: C,
    pub cwd: W,
}

impl<C, W> HistoryCapturedBuilder<Missing, C, W> {
    /// Gives the time at which the command starts.
    pub fn timestamp(self, timestamp: i64) -> (b: HistoryCapturedBuilder<i64, C, W>)
        ensures
            b == (HistoryCapturedBuilder { timestamp, command: self.command, cwd: self.cwd }),
    {
        HistoryCapturedBuilder { timestamp, command: self.command, cwd: self.cwd }
    }
}

impl<T, W> HistoryCapturedBuilder<T, Missing, W> {
    /// Gives the command.
    pub fn command(self, command: String) -> (b: HistoryCapturedBuilder<T, String, W>)
        ensures
            b == (HistoryCapturedBuilder { timestamp: self.timestamp, command, cwd: self.cwd }),
    {
        HistoryCapturedBuilder { timestamp: self.timestamp, command, cwd: self.cwd }
    }
}

impl<T, C> HistoryCapturedBuilder<T, C, Missing> {
    /// Gives the working directory.
    pub fn cwd(self, cwd: String) -> (b: HistoryCapturedBuilder<T, C, String>)
        ensures
            b == (HistoryCapturedBuilder {
                timestamp: self.timestamp,
                command: self.command,
                cwd,
            }),
    {
        HistoryCapturedBuilder { timestamp: self.timestamp, command: self.command, cwd }
    }
}

impl HistoryCapturedBuilder<i64, String, String> {
    /// The data with the fields that were given.
    pub fn build(self) -> (c: HistoryCaptured)
        ensures
            c.record() == HistoryView::captured(self.timestamp, self.command@, self.cwd@),
    {
        HistoryCaptured { timestamp: self.timestamp, command: self.command, cwd: self.cwd }
    }
}

impl HistoryCaptured {
    /// What the record of this command will say.
    pub closed spec fn record(&self) -> HistoryView {
        HistoryView::captured(self.timestamp, self.command@, self.cwd@)
    }

    /// The record of the command, ready to be saved.
    pub fn into_history(self) -> (h: History)
        ensures
            h@ == self.record(),
    {
        History::new(self.timestamp, self.command, self.cwd, NOT_SET)
    }
}

impl From<HistoryCaptured> for History {
    fn from(captured: HistoryCaptured) -> (h: History)
        ensures
            h@ == captured.record(),
    {
        captured.into_history()
    }
}

impl FromSpecImpl<HistoryCaptured> for History {
    open spec fn obeys_from_spec() -> bool {
        false
    }

    open spec fn from_spec(captured: HistoryCaptured) -> History {
        arbitrary()
    }
}

/// What a history file tells of a command: the data required to import a history record
/// from an import source.
#[derive(Debug, Clone)]
pub struct HistoryImported {
    timestamp: i64,
    command: String,
}

/// The data of an imported command in the making.
#[derive(Debug, Clone)]
pub struct HistoryImportedBuilder<T, C> {
    pub timestamp: T,
    pub command: C,
}

impl<C> HistoryImportedBuilder<Missing, C> {
    /// Gives the time at which the command was run.
    pub fn timestamp(self, timestamp: i64) -> (b: HistoryImportedBuilder<i64, C>)
        ensures
            b == (HistoryImportedBuilder { timestamp, command: self.command }),
    {
        HistoryImportedBuilder { timestamp, command: self.command }
    }
}

impl<T> HistoryImportedBuilder<T, Missing> {
    /// Gives the command.
    pub fn command(self, command: String) -> (b: HistoryImportedBuilder<T, String>)
        ensures
            b == (HistoryImportedBuilder { timestamp: self.timestamp, command }),
    {
        HistoryImportedBuilder { timestamp: self.timestamp, command }
    }
}

impl HistoryImportedBuilder<i64, String> {
    /// The data with the fields that were given.
    pub fn build(self) -> (c: HistoryImported)
        ensures
            c.record() == HistoryView::imported(self.timestamp, self.command@),
    {
        HistoryImported { timestamp: self.timestamp, command: self.command }
    }
}

impl HistoryImported {
    /// What the record of this command will say.
    pub closed spec fn record(&self) -> HistoryView {
        HistoryView::imported(self.timestamp, self.command@)
    }

    /// The record of the command, ready to be saved.
    pub fn into_history(self) -> (h: History)
        ensures
            h@ == self.record(),
    {
        let cwd = "unknown".to_owned();
        History::new(self.timestamp, self.command, cwd, NOT_SET)
    }
}

impl From<HistoryImported> for History {
    fn from(imported: HistoryImported) -> (h: History)
        ensures
            h@ == imported.record(),
    {
        imported.into_history()
    }
}

impl FromSpecImpl<HistoryImported> for History {
    open spec fn obeys_from_spec() -> bool {
        false
    }

    open spec fn from_spec(imported: HistoryImported) -> History {
        arbitrary()
    }
}

} // verus!
