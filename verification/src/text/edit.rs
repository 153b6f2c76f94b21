//! Replacing inside a text and cutting a text into words and lines.

use vstd::prelude::*;
use vstd::string::StringExecFns;
use crate::text::{find_char, is_white_space, is_whitespace, lines, push_char, replace_char,
    replace_pair, string_of_range, strip_carriage_return, word_start, words};

verus! {

/// The views of the strings of `v`, in order.
pub open spec fn views(v: Seq<String>) -> Seq<Seq<char>> {
    Seq::new(v.len(), |i: int| v[i]@)
}

/// The texts that the ranges cut out of `s`, in order.
pub open spec fn cuts(s: Seq<char>, ranges: Seq<(usize, usize)>) -> Seq<Seq<char>> {
    Seq::new(ranges.len(), |i: int| s.subrange(ranges[i].0 as int, ranges[i].1 as int))
}

/// Appends `chars[from..to]` to `out`, with `replacement` in place of every `target`.
pub fn push_replacing_char(
    out: &mut String,
    chars: &Vec<char>,
    from: usize,
    to: usize,
    target: char,
    replacement: &str,
)
    requires
        from <= to <= chars.len(),
    ensures
        final(out)@ == old(out)@ + replace_char(
            chars@.subrange(from as int, to as int),
            target,
            replacement@,
        ),
{
    let mut i: usize = from;
    while i < to
        invariant
            from <= i <= to <= chars.len(),
            out@ == old(out)@ + replace_char(
                chars@.subrange(from as int, i as int),
                target,
                replacement@,
            ),
        decreases to - i,
    {
        let ghost before = out@;
        let c = chars[i];
        if c == target {
            out.append(replacement);
        } else {
            push_char(out, c);
        }
        i += 1;
        proof {
            let s = chars@.subrange(from as int, i as int);
            assert(s.drop_last() =~= chars@.subrange(from as int, i - 1));
            assert(s.last() == c);
            assert(before.push(c) =~= before + seq![c]);
            assert(out@ =~= old(out)@ + replace_char(s, target, replacement@));
        }
    }
}

/// The text of `chars` with `to` in place of every `pair`, taken from left to right.
pub fn replace_pairs(chars: &Vec<char>, pair: (char, char), to: char) -> (out: String)
    ensures
        out@ == replace_pair(chars@, pair, to),
{
    let mut out = String::new();
    let mut i: usize = 0;
    let n = chars.len();
    proof {
        assert(chars@.skip(0) =~= chars@);
        assert(out@ + replace_pair(chars@, pair, to) =~= replace_pair(chars@, pair, to));
    }
    while i < n
        invariant
            i <= n == chars.len(),
            out@ + replace_pair(chars@.skip(i as int), pair, to) == replace_pair(chars@, pair, to),
        decreases n - i,
    {
        let ghost rest = chars@.skip(i as int);
        let ghost before = out@;
        assert(rest[0] == chars@[i as int]);
        if i + 1 < n && chars[i] == pair.0 && chars[i + 1] == pair.1 {
            assert(rest[1] == chars@[i + 1]);
            push_char(&mut out, to);
            i += 2;
            proof {
                assert(rest.skip(2) =~= chars@.skip(i as int));
                assert(out@ + replace_pair(chars@.skip(i as int), pair, to) =~= before
                    + replace_pair(rest, pair, to));
            }
        } else {
            proof {
                if rest.len() >= 2 {
                    assert(rest[1] == chars@[i + 1]);
                }
            }
            push_char(&mut out, chars[i]);
            i += 1;
            proof {
                assert(rest.skip(1) =~= chars@.skip(i as int));
                assert(out@ + replace_pair(chars@.skip(i as int), pair, to) =~= before
                    + replace_pair(rest, pair, to));
            }
        }
    }
    proof {
        assert(chars@.skip(n as int) =~= Seq::<char>::empty());
        assert(out@ + Seq::<char>::empty() =~= out@);
    }
    out
}

/// A stretch without whitespace that has whitespace or nothing before it is the last word
/// of what ends with it.
pub proof fn lemma_word_start_of_run(s: Seq<char>, start: int, end: int)
    requires
        0 <= start <= end <= s.len(),
        forall|i: int| start <= i < end ==> !is_white_space(#[trigger] s[i]),
        start > 0 ==> is_white_space(s[start - 1]),
    ensures
        word_start(s.take(end)) == start,
    decreases end - start,
{
    if start == end {
        if start > 0 {
            assert(s.take(end).last() == s[start - 1]);
        }
    } else {
        assert(s.take(end).last() == s[end - 1]);
        assert(s.take(end).drop_last() =~= s.take(end - 1));
        lemma_word_start_of_run(s, start, end - 1);
    }
}

/// The places of the whitespace-separated words of `chars`, in order, each as the range
/// from its first character up to and without the one after its last.
pub fn word_ranges(chars: &Vec<char>) -> (ranges: Vec<(usize, usize)>)
    ensures
        cuts(chars@, ranges@) == words(chars@),
        forall|i: int|
            0 <= i < ranges.len() ==> (#[trigger] ranges[i]).0 < ranges[i].1 <= chars.len(),
{
    let mut ranges: Vec<(usize, usize)> = Vec::new();
    let n = chars.len();
    let mut i: usize = 0;
    proof {
        assert(cuts(chars@, ranges@) =~= words(chars@.take(0)));
    }
    while i < n
        invariant
            i <= n == chars.len(),
            cuts(chars@, ranges@) == words(chars@.take(i as int)),
            i == 0 || is_white_space(chars@[i - 1]) || i == n || is_white_space(chars@[i as int]),
            forall|k: int|
                0 <= k < ranges.len() ==> (#[trigger] ranges[k]).0 < ranges[k].1 <= chars.len(),
        decreases n - i,
    {
        if is_whitespace(chars[i]) {
            proof {
                let t = chars@.take(i + 1);
                assert(t.last() == chars@[i as int]);
                assert(t.drop_last() =~= chars@.take(i as int));
            }
            i += 1;
        } else {
            let start = i;
            while i < n && !is_whitespace(chars[i])
                invariant
                    start <= i <= n == chars.len(),
                    forall|k: int| start <= k < i ==> !is_white_space(#[trigger] chars@[k]),
                decreases n - i,
            {
                i += 1;
            }
            proof {
                let t = chars@.take(i as int);
                lemma_word_start_of_run(chars@, start as int, i as int);
                assert(t.last() == chars@[i - 1]);
                assert(t.take(start as int) =~= chars@.take(start as int));
                assert(t.skip(start as int) =~= chars@.subrange(start as int, i as int));
            }
            let ghost before = ranges@;
            ranges.push((start, i));
            proof {
                assert(cuts(chars@, ranges@) =~= cuts(chars@, before).push(
                    chars@.subrange(start as int, i as int),
                ));
            }
        }
    }
    proof {
        assert(chars@.take(n as int) =~= chars@);
    }
    ranges
}

/// The lines of `text`, each without its line feed and without a carriage return before it.
pub fn split_lines(text: &str) -> (out: Vec<String>)
    ensures
        views(out@) == lines(text@),
{
    let chars = crate::text::chars_of(text);
    let n = chars.len();
    let mut out: Vec<String> = Vec::new();
    let mut pos: usize = 0;
    proof {
        assert(chars@.skip(0) =~= chars@);
        assert(views(out@) + lines(chars@) =~= lines(chars@));
    }
    while pos < n
        invariant
            pos <= n == chars.len(),
            chars@ == text@,
            views(out@) + lines(chars@.skip(pos as int)) == lines(text@),
        decreases n - pos,
    {
        let ghost rest = chars@.skip(pos as int);
        let ghost before = out@;
        proof {
            assert(rest =~= chars@.subrange(pos as int, n as int));
        }
        let len = find_char(&chars, pos, n, '\n');
        let end = pos + len;
        let line_end = if len > 0 && chars[end - 1] == '\r' && end < n {
            end - 1
        } else {
            end
        };
        let line = string_of_range(&chars, pos, line_end);
        out.push(line);
        proof {
            if end < n {
                assert(rest.take(len as int) =~= chars@.subrange(pos as int, end as int));
                if len > 0 {
                    assert(rest.take(len as int).last() == chars@[end - 1]);
                }
                assert(strip_carriage_return(rest.take(len as int)) =~= chars@.subrange(
                    pos as int,
                    line_end as int,
                ));
                assert(rest.skip(len as int + 1) =~= chars@.skip(end + 1));
                assert(views(out@) =~= views(before) + seq![line@]);
                assert(views(out@) + lines(chars@.skip(end + 1)) =~= views(before) + lines(rest));
            } else {
                assert(line@ =~= rest);
                assert(chars@.skip(n as int) =~= Seq::<char>::empty());
                assert(views(out@) =~= views(before) + seq![line@]);
                assert(views(out@) + lines(chars@.skip(n as int)) =~= views(before) + lines(rest));
            }
        }
        pos = if end < n {
            end + 1
        } else {
            n
        };
    }
    proof {
        assert(chars@.skip(n as int) =~= Seq::<char>::empty());
        assert(views(out@) + Seq::<Seq<char>>::empty() =~= views(out@));
    }
    out
}

} // verus!
