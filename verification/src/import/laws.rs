//! What holds of every import of a zsh history file.

use vstd::prelude::*;
use super::zsh::{classify, command_text, continues, extended_prefix, import_lines, LineView,
    ParserState};
use crate::history::model::HistoryView;
use crate::history::timestamp::is_instant;
use crate::text::{first_index_of, join, parse_i64, replace_pair, starts_with, trim, trim_end};

verus! {

/// The first place of a character lies past the end exactly where the text does not hold
/// the character.
pub proof fn lemma_first_index_of_absent(s: Seq<char>, c: char)
    ensures
        first_index_of(s, c) >= s.len() <==> !s.contains(c),
        first_index_of(s, c) <= s.len(),
    decreases s.len(),
{
    if s.len() == 0 {
    } else if s[0] == c {
        assert(s.contains(c));
    } else {
        lemma_first_index_of_absent(s.drop_first(), c);
        if s.drop_first().contains(c) {
            let i = choose|i: int| 0 <= i < s.drop_first().len() && s.drop_first()[i] == c;
            assert(s[i + 1] == c);
        }
        if s.contains(c) {
            let i = choose|i: int| 0 <= i < s.len() && s[i] == c;
            assert(s.drop_first()[i - 1] == c);
        }
    }
}

/// A text without two neighbouring backslashes holds no continuation marker to replace.
pub proof fn lemma_nothing_to_unescape(s: Seq<char>)
    requires
        forall|i: int| 0 <= i < s.len() - 1 ==> !(s[i] == '\\' && #[trigger] s[i + 1] == '\\'),
    ensures
        replace_pair(s, ('\\', '\\'), '\\') == s,
    decreases s.len(),
{
    if s.len() > 0 {
        let rest = s.skip(1);
        assert forall|i: int| 0 <= i < rest.len() - 1 implies !(rest[i] == '\\'
            && #[trigger] rest[i + 1] == '\\') by {
            assert(rest[i] == s[i + 1] && rest[i + 1] == s[i + 1 + 1]);
        }
        lemma_nothing_to_unescape(rest);
        if s.len() >= 2 {
            assert(!(s[0] == '\\' && s[0int + 1] == '\\'));
        }
        assert(seq![s[0]] + rest =~= s);
    }
}

/// A line that starts like an extended entry and lacks the colon behind the time, or the
/// semicolon behind that colon, is malformed.
pub proof fn lemma_missing_separator_is_malformed(line: Seq<char>)
    requires
        starts_with(trim_end(line), extended_prefix()),
        !trim_end(line).skip(2).contains(':') || !trim_end(line).skip(2).contains(';'),
    ensures
        classify(line) == LineView::MalformedExtended(trim_end(line)),
{
    let text = trim_end(line);
    let rest = text.skip(2);
    lemma_first_index_of_absent(rest, ':');
    let colon = first_index_of(rest, ':') as int;
    if colon < rest.len() {
        let after = rest.skip(colon + 1);
        lemma_first_index_of_absent(after, ';');
        if after.contains(';') {
            let i = choose|i: int| 0 <= i < after.len() && after[i] == ';';
            assert(rest[colon + 1 + i] == ';');
            assert(rest.contains(';'));
        }
    }
}

/// A line that starts like an extended entry and has, where the time belongs, no integer
/// or none that tells an instant, is malformed.
pub proof fn lemma_bad_time_is_malformed(line: Seq<char>)
    requires
        starts_with(trim_end(line), extended_prefix()),
        ({
            let rest = trim_end(line).skip(2);
            let stamp = parse_i64(trim(rest.take(first_index_of(rest, ':') as int)));
            stamp is None || !is_instant(stamp->0)
        }),
    ensures
        classify(line) == LineView::MalformedExtended(trim_end(line)),
{
}

/// A file of one malformed line gives exactly one record: its command is the line without
/// its trailing whitespace and with one backslash for each continuation marker, and its
/// time is made up from `now`.
pub proof fn lemma_malformed_line_is_one_record(line: Seq<char>, now: i64)
    requires
        classify(line) is MalformedExtended,
    ensures
        import_lines(seq![line], now) == seq![
            HistoryView::imported(now, command_text(seq![trim_end(line)])),
        ],
{
    let lines = seq![line];
    let start = ParserState::start();
    assert(lines.drop_last() =~= Seq::<Seq<char>>::empty());
    assert(lines.last() == line);
    assert(start.feed_all(lines.drop_last(), now) == start);
    let text = trim_end(line);
    assert(classify(line) == LineView::MalformedExtended(text));
    let fed = start.feed(classify(line), now);
    assert(start.buffer.push(text) =~= seq![text]);
    assert(fed.records =~= seq![HistoryView::imported(now, command_text(seq![text]))]);
    assert(fed.buffer.len() == 0);
    assert(start.feed_all(lines, now) == fed);
}

/// Where the malformed line has no trailing whitespace and no two neighbouring
/// backslashes, the command of its record is the line as it stands.
pub proof fn lemma_malformed_line_is_kept(line: Seq<char>, now: i64)
    requires
        classify(line) is MalformedExtended,
        trim_end(line) == line,
        forall|i: int|
            0 <= i < line.len() - 1 ==> !(line[i] == '\\' && #[trigger] line[i + 1] == '\\'),
    ensures
        import_lines(seq![line], now) == seq![HistoryView::imported(now, line)],
{
    lemma_malformed_line_is_one_record(line, now);
    lemma_nothing_to_unescape(line);
    assert(join(seq![line], "\n"@) == line);
}

/// A file that ends while a simple command is continued still gives the command: one
/// simple line that ends in the continuation marker makes exactly one record.
pub proof fn lemma_file_ends_in_continuation(line: Seq<char>, now: i64)
    requires
        classify(line) is Simple,
        continues(trim_end(line)),
    ensures
        import_lines(seq![line], now) == seq![
            HistoryView::imported(now, command_text(seq![trim_end(line)])),
        ],
{
    let lines = seq![line];
    let start = ParserState::start();
    assert(lines.drop_last() =~= Seq::<Seq<char>>::empty());
    assert(lines.last() == line);
    assert(start.feed_all(lines.drop_last(), now) == start);
    let text = trim_end(line);
    assert(classify(line) == LineView::Simple(text));
    let fed = start.feed(classify(line), now);
    assert(start.buffer.push(text) =~= seq![text]);
    assert(fed.buffer =~= seq![text]);
    assert(start.feed_all(lines, now) == fed);
    assert(fed.finalize(now).records =~= seq![
        HistoryView::imported(now, command_text(seq![text])),
    ]);
}

/// A simple line that ends in the continuation marker and the simple line after it make
/// exactly one record, whether or not the second line is continued in turn: its command is
/// the two lines joined by a line feed, with one backslash for each continuation marker.
pub proof fn lemma_continued_line_joins_the_next(first: Seq<char>, second: Seq<char>, now: i64)
    requires
        classify(first) is Simple,
        continues(trim_end(first)),
        classify(second) is Simple,
    ensures
        import_lines(seq![first, second], now) == seq![
            HistoryView::imported(now, command_text(seq![trim_end(first), trim_end(second)])),
        ],
{
    let lines = seq![first, second];
    let start = ParserState::start();
    let head = lines.drop_last();
    assert(head =~= seq![first]);
    assert(head.drop_last() =~= Seq::<Seq<char>>::empty());
    assert(head.last() == first);
    assert(lines.last() == second);
    assert(start.feed_all(head.drop_last(), now) == start);
    let a = trim_end(first);
    let b = trim_end(second);
    assert(classify(first) == LineView::Simple(a));
    assert(classify(second) == LineView::Simple(b));
    let one = start.feed(classify(first), now);
    assert(start.buffer.push(a) =~= seq![a]);
    assert(one.buffer =~= seq![a]);
    assert(start.feed_all(head, now) == one);
    let two = one.feed(classify(second), now);
    assert(one.buffer.push(b) =~= seq![a, b]);
    assert(start.feed_all(lines, now) == two);
    let record = HistoryView::imported(now, command_text(seq![a, b]));
    if continues(b) {
        assert(two.buffer =~= seq![a, b]);
        assert(two.finalize(now).records =~= seq![record]);
    } else {
        assert(two.records =~= seq![record]);
        assert(two.buffer.len() == 0);
    }
}

} // verus!
