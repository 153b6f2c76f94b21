//! The state of the interactive picker that does not depend on a terminal: the query line
//! with its cursor, and the arithmetic of the selection.

use vstd::prelude::*;
use crate::duration::{duration_text, format_duration};
use crate::history::model::History;
use crate::text::{chars_of, string_of_range};
use crate::{HistoryFilters, MatchMode};

verus! {

/// The greatest number of entries that the picker lists.
pub const LIST_LIMIT: usize = 500;

/// The history scope of an interactive session.
#[derive(Clone, Copy, Debug, PartialEq, Eq, Structural)]
pub enum Scope {
    /// The commands that ran in the directory of the shell.
    Cwd,
    /// All commands.
    All,
}

impl Scope {
    /// The other scope.
    pub fn toggled(self) -> (other: Scope)
        ensures
            other != self,
    {
        match self {
            Scope::Cwd => Scope::All,
            Scope::All => Scope::Cwd,
        }
    }

    /// The filters of the search that fills the list: the directory `cwd` in the scope of
    /// the directory and no directory in the scope of all commands, any exit code, fuzzy
    /// matching, and no more entries than the picker lists.
    pub fn filters(self, cwd: &str) -> (filters: HistoryFilters)
        ensures
            filters.exit is None,
            filters.limit == Some(LIST_LIMIT),
            filters.mode == MatchMode::Fuzzy,
            self == Scope::All ==> filters.cwd is None,
            self == Scope::Cwd ==> filters.cwd is Some && filters.cwd->0@ == cwd@,
    {
        HistoryFilters {
            exit: None,
            cwd: match self {
                Scope::Cwd => Some(cwd.to_owned()),
                Scope::All => None,
            },
            limit: Some(LIST_LIMIT),
            mode: MatchMode::Fuzzy,
        }
    }
}

/// The query line of the picker: a text and a cursor, which stands before one of the
/// characters or behind the last.
#[derive(Debug)]
pub struct QueryInput {
    input: String,
    cursor_position: usize,
}

impl QueryInput {
    #[verifier::type_invariant]
    spec fn cursor_in_text(self) -> bool {
        self.cursor_position <= self.input@.len()
    }

    /// The text of the line.
    pub closed spec fn text(&self) -> Seq<char> {
        self.input@
    }

    /// The number of characters before the cursor.
    pub closed spec fn cursor(&self) -> nat {
        self.cursor_position as nat
    }

    /// A line that holds `query`, with the cursor behind it.
    pub fn new(query: String) -> (line: Self)
        ensures
            line.text() == query@,
            line.cursor() == query@.len(),
    {
        let cursor_position = chars_of(query.as_str()).len();
        QueryInput { input: query, cursor_position }
    }

    /// The text of the line.
    pub fn input(&self) -> (text: &str)
        ensures
            text@ == self.text(),
    {
        self.input.as_str()
    }

    /// The number of characters before the cursor.
    pub fn cursor_position(&self) -> (n: usize)
        ensures
            n == self.cursor(),
            n <= self.text().len(),
    {
        proof {
            use_type_invariant(self);
        }
        self.cursor_position
    }

    /// The place in the line that is nearest to `new_cursor_pos`.
    pub fn clamp_cursor(&self, new_cursor_pos: usize) -> (pos: usize)
        ensures
            pos == if new_cursor_pos <= self.text().len() {
                new_cursor_pos as int
            } else {
                self.text().len() as int
            },
    {
        let len = chars_of(self.input.as_str()).len();
        if new_cursor_pos <= len {
            new_cursor_pos
        } else {
            len
        }
    }

    /// Puts the cursor at the place in the line that is nearest to `pos`.
    pub fn set_cursor(&mut self, pos: usize)
        ensures
            final(self).text() == old(self).text(),
            final(self).cursor() == if pos <= old(self).text().len() {
                pos as int
            } else {
                old(self).text().len() as int
            },
    {
        let clamped = self.clamp_cursor(pos);
        self.cursor_position = clamped;
    }

    /// Moves the cursor one character to the left, unless it stands at the start.
    pub fn move_cursor_left(&mut self)
        ensures
            final(self).text() == old(self).text(),
            final(self).cursor() == if old(self).cursor() == 0 {
                0int
            } else {
                old(self).cursor() - 1
            },
    {
        proof {
            use_type_invariant(&*self);
        }
        if self.cursor_position > 0 {
            self.cursor_position = self.cursor_position - 1;
        }
    }

    /// Moves the cursor one character to the right, unless it stands at the end.
    pub fn move_cursor_right(&mut self)
        ensures
            final(self).text() == old(self).text(),
            final(self).cursor() == if old(self).cursor() == old(self).text().len() {
                old(self).cursor()
            } else {
                old(self).cursor() + 1
            },
    {
        proof {
            use_type_invariant(&*self);
        }
        let len = chars_of(self.input.as_str()).len();
        if self.cursor_position < len {
            self.cursor_position = self.cursor_position + 1;
        }
    }

    /// Puts `new_char` in at the cursor and moves the cursor behind it.
    pub fn enter_char(&mut self, new_char: char)
        ensures
            final(self).text() == old(self).text().insert(old(self).cursor() as int, new_char),
            final(self).cursor() == old(self).cursor() + 1,
    {
        proof {
            use_type_invariant(&*self);
        }
        let mut chars = chars_of(self.input.as_str());
        chars.insert(self.cursor_position, new_char);
        let text = string_of_range(&chars, 0, chars.len());
        proof {
            assert(chars@.subrange(0, chars.len() as int) =~= chars@);
        }
        self.input = text;
        self.cursor_position = self.cursor_position + 1;
    }

    /// Takes out the character before the cursor and moves the cursor into its place.
    /// Nothing changes where the cursor stands at the start.
    pub fn delete_char(&mut self) -> (deleted: bool)
        ensures
            deleted == (old(self).cursor() > 0),
            !deleted ==> final(self).text() == old(self).text(),
            !deleted ==> final(self).cursor() == old(self).cursor(),
            deleted ==> final(self).text() == old(self).text().remove(old(self).cursor() - 1),
            deleted ==> final(self).cursor() == old(self).cursor() - 1,
    {
        proof {
            use_type_invariant(&*self);
        }
        if self.cursor_position == 0 {
            return false;
        }
        let mut chars = chars_of(self.input.as_str());
        let _ = chars.remove(self.cursor_position - 1);
        let text = string_of_range(&chars, 0, chars.len());
        proof {
            assert(chars@.subrange(0, chars.len() as int) =~= chars@);
        }
        self.cursor_position = self.cursor_position - 1;
        self.input = text;
        true
    }
}

impl Clone for QueryInput {
    fn clone(&self) -> (line: Self)
        ensures
            line.text() == self.text(),
            line.cursor() == self.cursor(),
    {
        proof {
            use_type_invariant(self);
        }
        QueryInput { input: self.input.clone(), cursor_position: self.cursor_position }
    }
}

/// A record that says what `record` says.
pub fn copy_of(record: &History) -> (copy: History)
    ensures
        copy@ == record@,
{
    History {
        id: record.id,
        timestamp: record.timestamp,
        command: record.command.clone(),
        cwd: record.cwd.clone(),
        exit_code: record.exit_code,
    }
}

/// The picker: the query line, the entries that match it, and the entry that was picked.
/// It runs until an entry is picked or the user leaves.
#[derive(Debug)]
pub struct Picker {
    /// Whether the picker still runs.
    pub running: bool,
    /// The entry that was picked.
    pub selected: Option<History>,
    /// The query line.
    pub query: QueryInput,
    /// The entries that match the query.
    pub commands: Vec<History>,
}

impl Picker {
    /// A running picker with `query` in its query line, no entry and nothing picked.
    pub fn new(query: String) -> (picker: Self)
        ensures
            picker.running,
            picker.selected is None,
            picker.commands@.len() == 0,
            picker.query.text() == query@,
            picker.query.cursor() == query@.len(),
    {
        Picker { running: true, selected: None, query: QueryInput::new(query), commands: Vec::new() }
    }

    /// Ends the picker.
    pub fn quit(&mut self)
        ensures
            !final(self).running,
            final(self).selected == old(self).selected,
            final(self).commands == old(self).commands,
            final(self).query == old(self).query,
    {
        self.running = false;
    }

    /// Picks the entry at `idx` and ends the picker.
    pub fn select(&mut self, idx: usize)
        requires
            idx < old(self).commands@.len(),
        ensures
            !final(self).running,
            final(self).selected is Some,
            final(self).selected->0@ == old(self).commands@[idx as int]@,
            final(self).commands == old(self).commands,
            final(self).query == old(self).query,
    {
        self.selected = Some(copy_of(&self.commands[idx]));
        self.quit();
    }

    /// Takes the entry at `idx` out of the list and returns the entry that is selected in
    /// its place.
    pub fn remove(&mut self, idx: usize) -> (now_selected: Option<usize>)
        requires
            idx < old(self).commands@.len(),
        ensures
            final(self).commands@ == old(self).commands@.remove(idx as int),
            final(self).commands@.len() == 0 ==> now_selected is None,
            final(self).commands@.len() > 0 ==> now_selected is Some && now_selected->0
                < final(self).commands@.len() && (now_selected->0 == idx || now_selected->0 + 1
                == idx),
            final(self).running == old(self).running,
            final(self).selected == old(self).selected,
            final(self).query == old(self).query,
    {
        let _ = self.commands.remove(idx);
        selection_after_delete(idx, self.commands.len())
    }
}

/// The entry that is selected once the selected entry has been taken out of a list:
/// the entry that moved into its place, the last entry where the last was taken out, and
/// none where the list is empty now.
pub fn selection_after_delete(selected: usize, remaining: usize) -> (now_selected: Option<usize>)
    ensures
        remaining == 0 ==> now_selected is None,
        remaining > 0 && selected >= remaining ==> now_selected == Some((remaining - 1) as usize),
        remaining > 0 && selected < remaining ==> now_selected == Some(selected),
{
    if remaining == 0 {
        None
    } else if selected >= remaining {
        Some(remaining - 1)
    } else {
        Some(selected)
    }
}

/// The number of the quick pick that reaches the entry `index`: the five entries behind
/// the selected one have the numbers one to five, the first five entries behind the first
/// where none is selected.
pub fn quick_pick_number(index: usize, selected: Option<usize>) -> (number: Option<usize>)
    ensures
        number == quick_pick(index as int, selected),
{
    let base: usize = match selected {
        Some(selected) => selected,
        None => 0,
    };
    if index > base && index - base <= 5 {
        Some(index - base)
    } else {
        None
    }
}

/// The quick pick that reaches the entry `index`, if one does.
pub open spec fn quick_pick(index: int, selected: Option<usize>) -> Option<usize> {
    let base: int = match selected {
        Some(selected) => selected as int,
        None => 0,
    };
    if base < index <= base + 5 {
        Some((index - base) as usize)
    } else {
        None
    }
}

/// The entry that the quick pick with the given number reaches in a list of `len`
/// entries, if it reaches one.
pub fn quick_pick_target(selected: Option<usize>, number: usize, len: usize) -> (index: Option<
    usize,
>)
    ensures
        index matches Some(i) ==> i < len && quick_pick(i as int, selected) == Some(number),
        index is None <==> !(1 <= number <= 5) || (match selected {
            Some(selected) => selected as int,
            None => 0,
        }) + number >= len,
{
    let base: usize = match selected {
        Some(selected) => selected,
        None => 0,
    };
    if number < 1 || number > 5 {
        return None;
    }
    if base >= len || len - base <= number {
        return None;
    }
    Some(base + number)
}

/// How long before `now` the instant `then` lies, as text. An instant that lies after
/// `now` counts as `now`.
pub fn time_since(now: i64, then: i64) -> (text: String)
    ensures
        text@ == duration_text(
            if now >= then {
                (now - then) as u64
            } else {
                0
            },
            0,
        ),
{
    let since: u64 = if now >= then {
        (now as i128 - then as i128) as u64
    } else {
        0
    };
    format_duration(since, 0)
}

} // verus!
