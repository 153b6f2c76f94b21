//! What the shell reports of a command: that it starts, and how it ended.

use vstd::prelude::*;
use vstd::string::StringExecFns;
use crate::database::{Database, DatabaseError};
use crate::history::model::{History, HistoryView};
use crate::text::edit::views;
use crate::text::number::parse_i64_at;
use crate::text::{chars_of, join, lemma_join_step, parse_i64};

verus! {

/// The command line that the words make: the words with one space between each two.
pub fn command_line(words: &[String]) -> (line: String)
    ensures
        line@ == join(views(words@), " "@),
{
    let ghost parts = views(words@);
    let mut line = String::new();
    let mut i: usize = 0;
    proof {
        assert(line@ =~= join(parts.take(0), " "@));
    }
    while i < words.len()
        invariant
            i <= words.len(),
            parts == views(words@),
            line@ == join(parts.take(i as int), " "@),
        decreases words.len() - i,
    {
        if i != 0 {
            line.append(" ");
        }
        line.append(words[i].as_str());
        proof {
            lemma_join_step(parts, " "@, i as int);
            assert(line@ =~= join(parts.take(i + 1), " "@));
        }
        i += 1;
    }
    proof {
        assert(parts.take(words.len() as int) =~= parts);
    }
    line
}

/// The record of a command that is about to run in the directory `cwd` at the instant
/// `now`: it has no identifier and no exit code yet.
pub fn started(cwd: String, command: &[String], now: i64) -> (record: History)
    ensures
        record@ == HistoryView::captured(now, join(views(command@), " "@), cwd@),
{
    History::capture().cwd(cwd).command(command_line(command)).timestamp(now).build().into_history()
}

/// Saves the record of a command that is about to run, and returns the identifier under
/// which its end is reported later.
pub fn handle_start<D: Database>(db: &mut D, cwd: String, command: &[String], now: i64) -> (id:
    Result<i64, DatabaseError>) {
    let record = started(cwd, command, now);
    db.save(&record)
}

/// The identifier that `id` writes, if it writes one.
pub fn parse_id(id: &str) -> (parsed: Option<i64>)
    ensures
        parsed == parse_i64(id@),
{
    let chars = chars_of(id);
    let parsed = parse_i64_at(&chars, 0, chars.len());
    proof {
        assert(chars@.subrange(0, chars.len() as int) =~= id@);
    }
    parsed
}

/// The record with the exit code set.
pub fn finished(record: History, exit: i64) -> (done: History)
    ensures
        done@ == (HistoryView { exit_code: exit, ..record@ }),
{
    let mut done = record;
    done.exit_code = exit;
    done
}

/// Stores the exit code of the command that was saved under `id`. Nothing is stored where
/// `id` writes no identifier or no record has it; an error of the store is passed over.
pub fn handle_end<D: Database>(db: &D, id: &str, exit: i64) {
    let parsed_id = match parse_id(id) {
        Some(parsed_id) => parsed_id,
        None => {
            return ;
        },
    };
    match db.get(parsed_id) {
        Ok(Some(record)) => {
            let _ = db.update(&finished(record, exit));
        },
        _ => {},
    }
}

} // verus!
