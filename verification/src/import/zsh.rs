//! The history file of zsh.
//!
//! The file holds one command per line, in one of two forms. A simple line is the command
//! itself. An extended line starts with a colon and a space, then holds the time of the
//! command in seconds since the Unix epoch, a colon, the elapsed time, a semicolon and the
//! command. In both forms a line that ends in two backslashes continues on the next line.

use vstd::prelude::*;
use super::{ImportError, Loader};
use crate::history::model::{history_views, History, HistoryView};
use crate::history::timestamp::{converts_to_instant, is_instant, now_utc, MIN_TIMESTAMP};
use crate::text::edit::{replace_pairs, split_lines, views};
use crate::text::number::parse_i64_at;
use crate::text::{chars_of, ends_with, ends_with_pair, find_char, first_index_of, join,
    lemma_join_step, lines, parse_i64, replace_pair, starts_with, starts_with_pair,
    string_of_range, trim, trim_end, trim_end_at, trim_start, trim_start_at};

verus! {

// ---------------------------------------------------------------------------------------------
// Lines
// ---------------------------------------------------------------------------------------------

/// What one line of the history file is.
#[derive(Debug)]
pub enum ParsedLine {
    /// The first line of an extended entry: the time, the command text on this line, and
    /// whether the text ends in the continuation marker.
    ExtendedHeader(i64, String, bool),
    /// A line that starts like an extended entry but is not one. It holds the line.
    MalformedExtended(String),
    /// A simple line. It holds the line.
    Simple(String),
    /// An empty line, or one of whitespace alone.
    Empty,
}

/// What a [`ParsedLine`] says.
pub enum LineView {
    ExtendedHeader(i64, Seq<char>, bool),
    MalformedExtended(Seq<char>),
    Simple(Seq<char>),
    Empty,
}

impl View for ParsedLine {
    type V = LineView;

    open spec fn view(&self) -> LineView {
        match self {
            ParsedLine::ExtendedHeader(timestamp, command, more) => LineView::ExtendedHeader(
                *timestamp,
                command@,
                *more,
            ),
            ParsedLine::MalformedExtended(line) => LineView::MalformedExtended(line@),
            ParsedLine::Simple(line) => LineView::Simple(line@),
            ParsedLine::Empty => LineView::Empty,
        }
    }
}

/// The continuation marker: two backslashes.
pub open spec fn continuation() -> Seq<char> {
    seq!['\\', '\\']
}

/// Whether `line` ends in the continuation marker.
pub open spec fn continues(line: Seq<char>) -> bool {
    ends_with(line, continuation())
}

/// What starts an extended entry: a colon and a space.
pub open spec fn extended_prefix() -> Seq<char> {
    seq![':', ' ']
}

/// What the line is, once its trailing whitespace is cut off.
///
/// A line that starts like an extended entry is one if a colon follows, a semicolon follows
/// that colon, and what stands before the colon is, between whitespace, an integer that
/// tells an instant. Its command is what follows the semicolon, without leading whitespace.
/// A line that starts like an extended entry and fails any of this is kept whole, as a
/// malformed one.
pub open spec fn classify(line: Seq<char>) -> LineView {
    let text = trim_end(line);
    if text.len() == 0 {
        LineView::Empty
    } else if !starts_with(text, extended_prefix()) {
        LineView::Simple(text)
    } else {
        let rest = text.skip(2);
        let colon = first_index_of(rest, ':') as int;
        if colon >= rest.len() {
            LineView::MalformedExtended(text)
        } else {
            let after = rest.skip(colon + 1);
            let semicolon = first_index_of(after, ';') as int;
            if semicolon >= after.len() {
                LineView::MalformedExtended(text)
            } else {
                let command = trim_start(after.skip(semicolon + 1));
                match parse_i64(trim(rest.take(colon))) {
                    Some(timestamp) => if is_instant(timestamp) {
                        LineView::ExtendedHeader(timestamp, command, continues(command))
                    } else {
                        LineView::MalformedExtended(text)
                    },
                    None => LineView::MalformedExtended(text),
                }
            }
        }
    }
}

// ---------------------------------------------------------------------------------------------
// The parser
// ---------------------------------------------------------------------------------------------

/// The kind of command that is being gathered.
#[derive(Debug, Clone, Copy, PartialEq, Eq, Structural)]
pub enum ActiveCommandContext {
    /// No command is being gathered, or the last one was finished.
    Idle,
    /// A simple command.
    Simple,
    /// An extended command.
    Extended {
        timestamp: i64,
        /// Whether the last line of the command ended in the continuation marker.
        more_lines_expected: bool,
    },
}

/// What the parser knows between two lines.
pub struct ParserState {
    /// The lines of the command that is being gathered.
    pub buffer: Seq<Seq<char>>,
    /// The kind of that command.
    pub context: ActiveCommandContext,
    /// How many commands got a made-up time so far.
    pub offset: nat,
    /// The records that are finished.
    pub records: Seq<HistoryView>,
}

/// The command that the gathered lines make: the lines joined by line feeds, with one
/// backslash for each continuation marker.
pub open spec fn command_text(buffer: Seq<Seq<char>>) -> Seq<char> {
    replace_pair(join(buffer, "\n"@), ('\\', '\\'), '\\')
}

impl ParserState {
    /// The state before the first line.
    pub open spec fn start() -> ParserState {
        ParserState {
            buffer: Seq::empty(),
            context: ActiveCommandContext::Idle,
            offset: 0,
            records: Seq::empty(),
        }
    }

    /// How many made-up times are spent or about to be.
    pub open spec fn spent(self) -> nat {
        if self.buffer.len() > 0 {
            self.offset + 1
        } else {
            self.offset
        }
    }

    /// Makes a record of the gathered lines, if there are any. An extended command keeps
    /// the time of its first line. Any other gets `now` less one second for each command
    /// that got a made-up time before it, which keeps such commands in their order.
    pub open spec fn finalize(self, now: i64) -> ParserState {
        if self.buffer.len() == 0 {
            self
        } else {
            match self.context {
                ActiveCommandContext::Extended { timestamp, .. } => ParserState {
                    buffer: Seq::empty(),
                    records: self.records.push(
                        HistoryView::imported(timestamp, command_text(self.buffer)),
                    ),
                    ..self
                },
                _ => ParserState {
                    buffer: Seq::empty(),
                    offset: self.offset + 1,
                    records: self.records.push(
                        HistoryView::imported(
                            (now - self.offset) as i64,
                            command_text(self.buffer),
                        ),
                    ),
                    ..self
                },
            }
        }
    }

    /// With one more line gathered, as a command of the kind `context`.
    pub open spec fn gather(self, line: Seq<char>, context: ActiveCommandContext) -> ParserState {
        ParserState { buffer: self.buffer.push(line), context, ..self }
    }

    /// Back to gathering nothing.
    pub open spec fn idle(self) -> ParserState {
        ParserState { context: ActiveCommandContext::Idle, ..self }
    }

    /// Gathers `line` as a command of the kind `context`, which ends here unless `more`
    /// lines are expected.
    pub open spec fn gather_until(
        self,
        line: Seq<char>,
        context: ActiveCommandContext,
        more: bool,
        now: i64,
    ) -> ParserState {
        let gathered = self.gather(line, context);
        if more {
            gathered
        } else {
            gathered.finalize(now).idle()
        }
    }

    /// The state after one more line.
    pub open spec fn feed(self, line: LineView, now: i64) -> ParserState {
        match line {
            LineView::ExtendedHeader(timestamp, command, more) => self.finalize(now).gather_until(
                command,
                ActiveCommandContext::Extended { timestamp, more_lines_expected: more },
                more,
                now,
            ),
            LineView::MalformedExtended(line) => self.finalize(now).gather_until(
                line,
                ActiveCommandContext::Simple,
                false,
                now,
            ),
            LineView::Simple(line) => match self.context {
                ActiveCommandContext::Extended { timestamp, more_lines_expected } => {
                    if more_lines_expected {
                        self.gather_until(
                            line,
                            ActiveCommandContext::Extended {
                                timestamp,
                                more_lines_expected: continues(line),
                            },
                            continues(line),
                            now,
                        )
                    } else {
                        self.finalize(now).gather_until(
                            line,
                            ActiveCommandContext::Simple,
                            continues(line),
                            now,
                        )
                    }
                },
                _ => self.gather_until(
                    line,
                    ActiveCommandContext::Simple,
                    continues(line),
                    now,
                ),
            },
            LineView::Empty => match self.context {
                ActiveCommandContext::Extended { more_lines_expected, .. } => {
                    if more_lines_expected {
                        ParserState { buffer: self.buffer.push(Seq::empty()), ..self }
                    } else {
                        self
                    }
                },
                ActiveCommandContext::Simple => {
                    if self.buffer.len() > 0 && continues(self.buffer.last()) {
                        ParserState { buffer: self.buffer.push(Seq::empty()), ..self }
                    } else {
                        self
                    }
                },
                ActiveCommandContext::Idle => self,
            },
        }
    }

    /// The state after the given lines, fed in order.
    pub open spec fn feed_all(self, lines: Seq<Seq<char>>, now: i64) -> ParserState
        decreases lines.len(),
    {
        if lines.len() == 0 {
            self
        } else {
            self.feed_all(lines.drop_last(), now).feed(classify(lines.last()), now)
        }
    }
}

/// The records that the lines of a history file hold, in order. What is still being
/// gathered when the lines end makes the last record.
pub open spec fn import_lines(lines: Seq<Seq<char>>, now: i64) -> Seq<HistoryView> {
    ParserState::start().feed_all(lines, now).finalize(now).records
}

/// The records that the text of a history file holds, in order.
pub open spec fn import_text(text: Seq<char>, now: i64) -> Seq<HistoryView> {
    import_lines(lines(text), now)
}

/// Whether none of the lines holds a command: each is empty or whitespace alone.
pub open spec fn holds_no_command(lines: Seq<Seq<char>>) -> bool {
    forall|i: int| 0 <= i < lines.len() ==> classify(#[trigger] lines[i]) is Empty
}

/// Lines that hold no command give no record, whatever the present instant.
pub proof fn lemma_lines_without_command(lines: Seq<Seq<char>>, now: i64)
    requires
        holds_no_command(lines),
    ensures
        ParserState::start().feed_all(lines, now) == ParserState::start(),
        import_lines(lines, now) == Seq::<HistoryView>::empty(),
    decreases lines.len(),
{
    if lines.len() > 0 {
        let head = lines.drop_last();
        assert forall|i: int| 0 <= i < head.len() implies classify(#[trigger] head[i]) is Empty by {
            assert(head[i] == lines[i]);
        }
        lemma_lines_without_command(head, now);
        assert(classify(lines[lines.len() - 1]) is Empty);
    }
}

/// Feeding a line spends at most one made-up time more.
pub proof fn lemma_feed_spends_one(state: ParserState, line: LineView, now: i64)
    ensures
        state.feed(line, now).spent() <= state.spent() + 1,
        state.finalize(now).spent() <= state.spent(),
{
}

/// Feeding lines spends at most one made-up time for each line.
pub proof fn lemma_feed_all_spends(state: ParserState, lines: Seq<Seq<char>>, now: i64)
    ensures
        state.feed_all(lines, now).spent() <= state.spent() + lines.len(),
    decreases lines.len(),
{
    if lines.len() > 0 {
        lemma_feed_all_spends(state, lines.drop_last(), now);
        lemma_feed_spends_one(state.feed_all(lines.drop_last(), now), classify(lines.last()), now);
    }
}

/// The importer of the zsh history file.
#[derive(Debug)]
pub struct Zsh {
    buffer: Vec<String>,
    context: ActiveCommandContext,
    offset: u64,
    records: Vec<History>,
}

impl View for Zsh {
    type V = ParserState;

    closed spec fn view(&self) -> ParserState {
        ParserState {
            buffer: views(self.buffer@),
            context: self.context,
            offset: self.offset as nat,
            records: history_views(self.records@),
        }
    }
}

/// The command that the gathered lines make.
fn command_of(buffer: &Vec<String>) -> (command: String)
    ensures
        command@ == command_text(views(buffer@)),
{
    let ghost parts = views(buffer@);
    let mut joined: Vec<char> = Vec::new();
    let mut i: usize = 0;
    proof {
        reveal_strlit("\n");
        assert("\n"@ =~= seq!['\n']);
        assert(joined@ =~= join(parts.take(0), "\n"@));
    }
    while i < buffer.len()
        invariant
            i <= buffer.len(),
            parts == views(buffer@),
            "\n"@ == seq!['\n'],
            joined@ == join(parts.take(i as int), "\n"@),
        decreases buffer.len() - i,
    {
        let ghost before = joined@;
        if i != 0 {
            joined.push('\n');
        }
        let mut line = chars_of(buffer[i].as_str());
        let ghost line_view = line@;
        joined.append(&mut line);
        proof {
            lemma_join_step(parts, "\n"@, i as int);
            assert(parts[i as int] == line_view);
            if i == 0 {
                assert(joined@ =~= line_view);
            } else {
                assert(joined@ =~= before + seq!['\n'] + line_view);
            }
        }
        i += 1;
    }
    proof {
        assert(parts.take(buffer.len() as int) =~= parts);
    }
    replace_pairs(&joined, ('\\', '\\'), '\\')
}

/// Whether `line` ends in the continuation marker.
fn line_continues(line: &String) -> (more: bool)
    ensures
        more == continues(line@),
{
    let chars = chars_of(line.as_str());
    let more = ends_with_pair(&chars, 0, chars.len(), '\\', '\\');
    proof {
        assert(chars@.subrange(0, chars.len() as int) =~= line@);
    }
    more
}

impl Zsh {
    /// The name of the shell.
    pub const NAME: &'static str = "zsh";

    /// The names under which the history file is looked for in the home directory, in the
    /// order in which they are tried.
    pub fn histfile_names() -> (names: Vec<&'static str>)
        ensures
            names.len() == 3,
            names[0]@ == ".zhistory"@,
            names[1]@ == ".zsh_history"@,
            names[2]@ == ".histfile"@,
    {
        let mut names: Vec<&'static str> = Vec::new();
        names.push(".zhistory");
        names.push(".zsh_history");
        names.push(".histfile");
        names
    }

    /// An importer that has seen no line yet.
    pub fn new() -> (zsh: Self)
        ensures
            zsh@ == ParserState::start(),
    {
        let zsh = Zsh {
            buffer: Vec::new(),
            context: ActiveCommandContext::Idle,
            offset: 0,
            records: Vec::new(),
        };
        proof {
            assert(zsh@.buffer =~= Seq::empty());
            assert(zsh@.records =~= Seq::empty());
        }
        zsh
    }

    /// Tells what a line is, and takes an extended one apart.
    pub fn classify_and_parse_line(line_text: &str) -> (parsed: ParsedLine)
        ensures
            parsed@ == classify(line_text@),
    {
        let chars = chars_of(line_text);
        let end = trim_end_at(&chars, 0, chars.len());
        let ghost text = chars@.subrange(0, end as int);
        proof {
            assert(chars@.subrange(0, chars.len() as int) =~= line_text@);
        }
        if end == 0 {
            return ParsedLine::Empty;
        }
        if !starts_with_pair(&chars, 0, end, ':', ' ') {
            return ParsedLine::Simple(string_of_range(&chars, 0, end));
        }
        proof {
            assert(text.len() >= 2);
        }
        let ghost rest = text.skip(2);
        proof {
            assert(rest =~= chars@.subrange(2, end as int));
        }
        let colon = find_char(&chars, 2, end, ':');
        if colon >= end - 2 {
            return ParsedLine::MalformedExtended(string_of_range(&chars, 0, end));
        }
        let stamp_end = trim_end_at(&chars, 2, 2 + colon);
        let stamp_start = trim_start_at(&chars, 2, stamp_end);
        let after_start = 2 + colon + 1;
        let ghost after = rest.skip(colon + 1);
        proof {
            assert(rest.take(colon as int) =~= chars@.subrange(2, 2 + colon));
            assert(after =~= chars@.subrange(after_start as int, end as int));
        }
        let semicolon = find_char(&chars, after_start, end, ';');
        if semicolon >= end - after_start {
            return ParsedLine::MalformedExtended(string_of_range(&chars, 0, end));
        }
        let command_start = trim_start_at(&chars, after_start + semicolon + 1, end);
        proof {
            assert(after.skip(semicolon + 1) =~= chars@.subrange(
                after_start + semicolon + 1,
                end as int,
            ));
        }
        match parse_i64_at(&chars, stamp_start, stamp_end) {
            Some(timestamp) => {
                if converts_to_instant(timestamp) {
                    let more = ends_with_pair(&chars, command_start, end, '\\', '\\');
                    ParsedLine::ExtendedHeader(
                        timestamp,
                        string_of_range(&chars, command_start, end),
                        more,
                    )
                } else {
                    ParsedLine::MalformedExtended(string_of_range(&chars, 0, end))
                }
            },
            None => ParsedLine::MalformedExtended(string_of_range(&chars, 0, end)),
        }
    }

    /// Makes a record of the gathered lines, if there are any.
    fn finalize_command_block(&mut self, now: i64)
        requires
            now - old(self)@.spent() >= i64::MIN,
        ensures
            final(self)@ == old(self)@.finalize(now),
    {
        if self.buffer.len() == 0 {
            return ;
        }
        let command = command_of(&self.buffer);
        let timestamp = match self.context {
            ActiveCommandContext::Extended { timestamp, .. } => timestamp,
            _ => {
                let made_up = (now as i128 - self.offset as i128) as i64;
                self.offset = self.offset + 1;
                made_up
            },
        };
        let ghost before = self.records@;
        let record = History::import().command(command).timestamp(timestamp).build().into_history();
        self.records.push(record);
        self.buffer.clear();
        proof {
            assert(self@.buffer =~= Seq::empty());
            assert(history_views(self.records@) =~= history_views(before).push(record@));
            assert(self@.records =~= old(self)@.finalize(now).records);
        }
    }

    /// Gathers `line` as a command of the kind `context`, which ends here unless `more`
    /// lines are expected.
    fn gather_until(&mut self, line: String, context: ActiveCommandContext, more: bool, now: i64)
        requires
            now - old(self)@.offset - 1 >= i64::MIN,
        ensures
            final(self)@ == old(self)@.gather_until(line@, context, more, now),
    {
        let ghost before = self.buffer@;
        self.buffer.push(line);
        self.context = context;
        proof {
            assert(views(self.buffer@) =~= views(before).push(line@));
        }
        if !more {
            self.finalize_command_block(now);
            self.context = ActiveCommandContext::Idle;
        }
    }

    /// Gathers an empty line.
    fn gather_empty(&mut self)
        ensures
            final(self)@ == (ParserState {
                buffer: old(self)@.buffer.push(Seq::empty()),
                ..old(self)@
            }),
    {
        let ghost before = self.buffer@;
        let empty = String::new();
        self.buffer.push(empty);
        proof {
            assert(views(self.buffer@) =~= views(before).push(Seq::empty()));
        }
    }

    /// Takes one more line of the file.
    pub fn feed(&mut self, line: ParsedLine, now: i64)
        requires
            now - old(self)@.spent() - 1 >= i64::MIN,
        ensures
            final(self)@ == old(self)@.feed(line@, now),
    {
        match line {
            ParsedLine::ExtendedHeader(timestamp, command, more) => {
                self.finalize_command_block(now);
                self.gather_until(
                    command,
                    ActiveCommandContext::Extended { timestamp, more_lines_expected: more },
                    more,
                    now,
                );
            },
            ParsedLine::MalformedExtended(original) => {
                self.finalize_command_block(now);
                self.gather_until(original, ActiveCommandContext::Simple, false, now);
            },
            ParsedLine::Simple(content) => {
                let more = line_continues(&content);
                match self.context {
                    ActiveCommandContext::Extended { timestamp, more_lines_expected } => {
                        if more_lines_expected {
                            self.gather_until(
                                content,
                                ActiveCommandContext::Extended {
                                    timestamp,
                                    more_lines_expected: more,
                                },
                                more,
                                now,
                            );
                        } else {
                            self.finalize_command_block(now);
                            self.gather_until(content, ActiveCommandContext::Simple, more, now);
                        }
                    },
                    _ => {
                        self.gather_until(content, ActiveCommandContext::Simple, more, now);
                    },
                }
            },
            ParsedLine::Empty => {
                match self.context {
                    ActiveCommandContext::Extended { more_lines_expected, .. } => {
                        if more_lines_expected {
                            self.gather_empty();
                        }
                    },
                    ActiveCommandContext::Simple => {
                        let n = self.buffer.len();
                        if n > 0 && line_continues(&self.buffer[n - 1]) {
                            self.gather_empty();
                        }
                    },
                    ActiveCommandContext::Idle => {},
                }
            },
        }
    }

    /// The records of everything that was fed, with what is still being gathered as the
    /// last of them.
    pub fn finish(self, now: i64) -> (records: Vec<History>)
        requires
            now - self@.spent() >= i64::MIN,
        ensures
            history_views(records@) == self@.finalize(now).records,
    {
        let mut zsh = self;
        zsh.finalize_command_block(now);
        zsh.records
    }

    /// The records that the lines of a history file hold. A command without a time of its
    /// own gets `now`, less one second for each such command before it.
    pub fn parse_lines(lines: &Vec<String>, now: i64) -> (records: Vec<History>)
        requires
            now - lines.len() >= i64::MIN,
        ensures
            history_views(records@) == import_lines(views(lines@), now),
    {
        let mut zsh = Zsh::new();
        let ghost all = views(lines@);
        let mut i: usize = 0;
        proof {
            assert(all.take(0) =~= Seq::<Seq<char>>::empty());
        }
        while i < lines.len()
            invariant
                i <= lines.len(),
                all == views(lines@),
                now - lines.len() >= i64::MIN,
                zsh@ == ParserState::start().feed_all(all.take(i as int), now),
            decreases lines.len() - i,
        {
            proof {
                lemma_feed_all_spends(ParserState::start(), all.take(i as int), now);
                assert(all.take(i + 1).drop_last() =~= all.take(i as int));
                assert(all.take(i + 1).last() == lines@[i as int]@);
            }
            let parsed = Zsh::classify_and_parse_line(lines[i].as_str());
            zsh.feed(parsed, now);
            i += 1;
        }
        proof {
            lemma_feed_all_spends(ParserState::start(), all, now);
            assert(all.take(lines.len() as int) =~= all);
        }
        zsh.finish(now)
    }

    /// The records that the text of a history file holds.
    pub fn parse_text(text: &str, now: i64) -> (records: Vec<History>)
        requires
            now - lines(text@).len() >= i64::MIN,
        ensures
            history_views(records@) == import_text(text@, now),
    {
        let lines = split_lines(text);
        Zsh::parse_lines(&lines, now)
    }

    /// Hands the records that the lines hold to the loader, in order, with `now` as the
    /// present instant. The first record that the loader refuses ends the import with an
    /// error; the records before it stay with the loader. Where the lines hold no record,
    /// the loader is not asked and the result is `Ok`.
    pub fn load_lines_at<L: Loader>(lines: &Vec<String>, now: i64, loader: &mut L) -> (done:
        Result<(), ImportError>)
        requires
            now - lines.len() >= i64::MIN,
        ensures
            import_lines(views(lines@), now).len() == 0 ==> done is Ok,
            done is Ok ==> final(loader).received() == old(loader).received() + import_lines(
                views(lines@),
                now,
            ),
            done is Err ==> exists|j: int|
                0 <= j < import_lines(views(lines@), now).len() && final(loader).received()
                    == old(loader).received() + #[trigger] import_lines(
                    views(lines@),
                    now,
                ).take(j),
    {
        Zsh::push_all(Zsh::parse_lines(lines, now), loader)
    }

    /// Hands the records to the loader, in order, until the loader refuses one. Where there
    /// is no record, the loader is not asked and the result is `Ok`. After success the
    /// loader has taken all of the records, each in its place. A record that the loader
    /// refuses makes the result an error: the loader has then taken the records before it,
    /// each in its place, and none after it.
    pub fn push_all<L: Loader>(records: Vec<History>, loader: &mut L) -> (done: Result<
        (),
        ImportError,
    >)
        ensures
            records.len() == 0 ==> done is Ok,
            done is Ok ==> final(loader).received() == old(loader).received() + history_views(
                records@,
            ),
            done is Err ==> exists|j: int|
                0 <= j < records.len() && final(loader).received() == old(loader).received()
                    + #[trigger] history_views(records@).take(j),
    {
        let ghost all = history_views(records@);
        if records.len() == 0 {
            proof {
                assert(loader.received() + all =~= loader.received());
            }
            return Ok(());
        }
        proof {
            assert(loader.received() + all.take(0) =~= loader.received());
        }
        for record in it: records
            invariant
                all.len() > 0,
                all == history_views(it.seq()),
                loader.received() == old(loader).received() + all.take(it.index() as int),
        {
            proof {
                assert(all.take(it.index() + 1) =~= all.take(it.index() as int).push(record@));
            }
            match loader.push(record) {
                Ok(()) => {},
                Err(_) => {
                    return Err(ImportError);
                },
            }
        }
        proof {
            assert(all.take(all.len() as int) =~= all);
        }
        Ok(())
    }

    /// Hands the records that the lines hold to the loader, in order. The present instant
    /// is read from the clock once, before the first line, and serves for every made-up
    /// time. So many lines that a made-up time could leave the range of the machine are
    /// refused. Where that is not so and no line holds a command, the loader is not asked
    /// and the result is `Ok`.
    pub fn load<L: Loader>(lines: &Vec<String>, loader: &mut L) -> (done: Result<
        (),
        ImportError,
    >)
        ensures
            lines.len() <= MIN_TIMESTAMP - i64::MIN && holds_no_command(views(lines@))
                ==> done is Ok,
            done is Ok ==> exists|now: i64|
                is_instant(now) && final(loader).received() == old(loader).received()
                    + #[trigger] import_lines(views(lines@), now),
            done is Err && lines.len() > MIN_TIMESTAMP - i64::MIN ==> exists|now: i64, j: int|
                is_instant(now) && 0 <= j <= import_lines(views(lines@), now).len()
                    && final(loader).received() == old(loader).received()
                    + #[trigger] import_lines(views(lines@), now).take(j),
            done is Err && lines.len() <= MIN_TIMESTAMP - i64::MIN ==> exists|now: i64, j: int|
                is_instant(now) && 0 <= j < import_lines(views(lines@), now).len()
                    && final(loader).received() == old(loader).received()
                    + #[trigger] import_lines(views(lines@), now).take(j),
    {
        let now = now_utc();
        if lines.len() as u128 > (now as i128 - i64::MIN as i128) as u128 {
            proof {
                assert(loader.received() + import_lines(views(lines@), now).take(0)
                    =~= loader.received());
            }
            return Err(ImportError);
        }
        proof {
            if holds_no_command(views(lines@)) {
                lemma_lines_without_command(views(lines@), now);
            }
        }
        Zsh::load_lines_at(lines, now, loader)
    }
}

} // verus!
