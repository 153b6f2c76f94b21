//! Text primitives shared by the query builder, the search expression generator and the
//! history-file parser.
//!
//! Every contract speaks of a text by its view, a `Seq<char>`.

use vstd::prelude::*;

pub mod edit;
pub mod number;

verus! {

// ---------------------------------------------------------------------------------------------
// Models
// ---------------------------------------------------------------------------------------------

/// Whether `c` has the Unicode `White_Space` property.
pub open spec fn is_white_space(c: char) -> bool {
    let n = c as u32;
    ||| 0x09 <= n <= 0x0D
    ||| n == 0x20
    ||| n == 0x85
    ||| n == 0xA0
    ||| n == 0x1680
    ||| 0x2000 <= n <= 0x200A
    ||| n == 0x2028
    ||| n == 0x2029
    ||| n == 0x202F
    ||| n == 0x205F
    ||| n == 0x3000
}

/// `s` without its trailing whitespace.
pub open spec fn trim_end(s: Seq<char>) -> Seq<char>
    decreases s.len(),
{
    if s.len() > 0 && is_white_space(s.last()) {
        trim_end(s.drop_last())
    } else {
        s
    }
}

/// `s` without its leading whitespace.
pub open spec fn trim_start(s: Seq<char>) -> Seq<char>
    decreases s.len(),
{
    if s.len() > 0 && is_white_space(s[0]) {
        trim_start(s.drop_first())
    } else {
        s
    }
}

/// `s` without its leading and trailing whitespace.
pub open spec fn trim(s: Seq<char>) -> Seq<char> {
    trim_start(trim_end(s))
}

/// Whether `s` begins with `prefix`.
pub open spec fn starts_with(s: Seq<char>, prefix: Seq<char>) -> bool {
    prefix.len() <= s.len() && s.take(prefix.len() as int) == prefix
}

/// Whether `s` ends with `suffix`.
pub open spec fn ends_with(s: Seq<char>, suffix: Seq<char>) -> bool {
    suffix.len() <= s.len() && s.skip(s.len() - suffix.len()) == suffix
}

/// The position of the first `c` in `s`, or the length of `s` where it holds none.
pub open spec fn first_index_of(s: Seq<char>, c: char) -> nat
    decreases s.len(),
{
    if s.len() == 0 {
        0
    } else if s[0] == c {
        0
    } else {
        1 + first_index_of(s.drop_first(), c)
    }
}

/// The parts joined into one text, with `sep` between each two neighbours.
pub open spec fn join(parts: Seq<Seq<char>>, sep: Seq<char>) -> Seq<char>
    decreases parts.len(),
{
    if parts.len() == 0 {
        Seq::empty()
    } else if parts.len() == 1 {
        parts[0]
    } else {
        join(parts.drop_last(), sep) + sep + parts.last()
    }
}

/// Joining one part more: the first part stands alone, every later one follows `sep`.
pub proof fn lemma_join_step(parts: Seq<Seq<char>>, sep: Seq<char>, i: int)
    requires
        0 <= i < parts.len(),
    ensures
        join(parts.take(i + 1), sep) == if i == 0 {
            parts[0]
        } else {
            join(parts.take(i), sep) + sep + parts[i]
        },
{
    let t = parts.take(i + 1);
    assert(t.last() == parts[i]);
    assert(t.drop_last() =~= parts.take(i));
    assert(t[0] == parts[0]);
}

/// `s` with every occurrence of the character `from` replaced by the text `to`.
pub open spec fn replace_char(s: Seq<char>, from: char, to: Seq<char>) -> Seq<char>
    decreases s.len(),
{
    if s.len() == 0 {
        Seq::empty()
    } else {
        replace_char(s.drop_last(), from, to) + (if s.last() == from {
            to
        } else {
            seq![s.last()]
        })
    }
}

/// `s` with every occurrence of `pair`, found from left to right without overlap, replaced
/// by the single character `to`.
pub open spec fn replace_pair(s: Seq<char>, pair: (char, char), to: char) -> Seq<char>
    decreases s.len(),
{
    if s.len() == 0 {
        Seq::empty()
    } else if s.len() >= 2 && s[0] == pair.0 && s[1] == pair.1 {
        seq![to] + replace_pair(s.skip(2), pair, to)
    } else {
        seq![s[0]] + replace_pair(s.skip(1), pair, to)
    }
}

/// The whitespace-separated words of `s`, in order; none of them is empty.
pub open spec fn words(s: Seq<char>) -> Seq<Seq<char>>
    decreases s.len(),
    via words_terminates
{
    if s.len() == 0 {
        Seq::empty()
    } else if is_white_space(s.last()) {
        words(s.drop_last())
    } else {
        let start = word_start(s);
        words(s.take(start as int)).push(s.skip(start as int))
    }
}

/// Where the last word of `s` begins, for an `s` that does not end in whitespace: the least
/// position from which no whitespace follows.
pub open spec fn word_start(s: Seq<char>) -> nat
    decreases s.len(),
{
    if s.len() == 0 || is_white_space(s.last()) {
        s.len()
    } else {
        word_start(s.drop_last())
    }
}

#[via_fn]
proof fn words_terminates(s: Seq<char>) {
    lemma_word_start(s);
}

/// The last word of `s` begins inside `s`, holds no whitespace, and has whitespace or nothing
/// before it.
pub proof fn lemma_word_start(s: Seq<char>)
    ensures
        word_start(s) <= s.len(),
        s.len() > 0 && !is_white_space(s.last()) ==> word_start(s) < s.len(),
        forall|i: int| word_start(s) <= i < s.len() ==> !is_white_space(#[trigger] s[i]),
        word_start(s) > 0 ==> is_white_space(s[word_start(s) - 1]),
    decreases s.len(),
{
    if s.len() == 0 || is_white_space(s.last()) {
    } else {
        lemma_word_start(s.drop_last());
        assert forall|i: int| word_start(s) <= i < s.len() implies !is_white_space(
            #[trigger] s[i],
        ) by {
            if i < s.len() - 1 {
                assert(s.drop_last()[i] == s[i]);
            }
        }
        if word_start(s) > 0 {
            assert(s.drop_last()[word_start(s) - 1] == s[word_start(s) - 1]);
        }
    }
}

/// The lines of `text`: it is cut at every line feed, a carriage return just before a line
/// feed goes with it, and what follows the last line feed is a line only if it is not empty.
pub open spec fn lines(text: Seq<char>) -> Seq<Seq<char>>
    decreases text.len(),
{
    if text.len() == 0 {
        Seq::empty()
    } else {
        let n = first_index_of(text, '\n');
        if n >= text.len() {
            seq![text]
        } else {
            seq![strip_carriage_return(text.take(n as int))] + lines(text.skip(n as int + 1))
        }
    }
}

/// `line` without one trailing carriage return.
pub open spec fn strip_carriage_return(line: Seq<char>) -> Seq<char> {
    if line.len() > 0 && line.last() == '\r' {
        line.drop_last()
    } else {
        line
    }
}

/// The character of the decimal digit `d`.
pub open spec fn digit_char(d: int) -> char
    recommends
        0 <= d <= 9,
{
    (('0' as u32) + d) as char
}

/// The decimal digits of `n`, most significant first, without leading zeros.
pub open spec fn decimal(n: nat) -> Seq<char>
    decreases n,
{
    if n < 10 {
        seq![digit_char(n as int)]
    } else {
        decimal(n / 10).push(digit_char((n % 10) as int))
    }
}

/// The decimal text of `v`, with a minus sign in front of a negative number.
pub open spec fn signed_decimal(v: int) -> Seq<char> {
    if v < 0 {
        seq!['-'] + decimal((-v) as nat)
    } else {
        decimal(v as nat)
    }
}

/// Whether `c` is one of the ten ASCII digits.
pub open spec fn is_digit(c: char) -> bool {
    '0' <= c <= '9'
}

/// Whether `s` is made of ASCII digits alone.
pub open spec fn all_digits(s: Seq<char>) -> bool {
    forall|i: int| 0 <= i < s.len() ==> is_digit(#[trigger] s[i])
}

/// The number that the digits of `s` write in base ten.
pub open spec fn digits_value(s: Seq<char>) -> nat
    decreases s.len(),
{
    if s.len() == 0 {
        0
    } else {
        (digits_value(s.drop_last()) * 10 + (s.last() as u32 - '0' as u32)) as nat
    }
}

/// The integer that `s` writes: an optional sign, then one digit or more and nothing else.
pub open spec fn parse_int(s: Seq<char>) -> Option<int> {
    if s.len() > 0 && (s[0] == '-' || s[0] == '+') {
        let digits = s.drop_first();
        if digits.len() > 0 && all_digits(digits) {
            if s[0] == '-' {
                Some(-(digits_value(digits) as int))
            } else {
                Some(digits_value(digits) as int)
            }
        } else {
            None
        }
    } else if s.len() > 0 && all_digits(s) {
        Some(digits_value(s) as int)
    } else {
        None
    }
}

/// The signed 64-bit integer that `s` writes, if it writes one that fits.
pub open spec fn parse_i64(s: Seq<char>) -> Option<i64> {
    match parse_int(s) {
        Some(v) => if i64::MIN <= v <= i64::MAX {
            Some(v as i64)
        } else {
            None
        },
        None => None,
    }
}

// ---------------------------------------------------------------------------------------------
// Characters and strings
// ---------------------------------------------------------------------------------------------

/// Appends one character to the end of `s`.
///
/// Wraps `String::push` of the standard library: the text afterwards is the text before
/// followed by `c`.
#[verifier::external_body]
pub(crate) fn push_char(s: &mut String, c: char)
    ensures
        final(s)@ == old(s)@.push(c),
{
    s.push(c)
}

/// The characters of `s`.
pub fn chars_of(s: &str) -> (v: Vec<char>)
    ensures
        v@ == s@,
{
    let mut v: Vec<char> = Vec::new();
    for c in it: s.chars()
        invariant
            v@ == it.seq().take(it.index() as int),
            it.seq() == s@,
    {
        v.push(c);
    }
    v
}

/// Appends the characters `chars[from..to]` to `out`.
pub fn push_range(out: &mut String, chars: &Vec<char>, from: usize, to: usize)
    requires
        from <= to <= chars.len(),
    ensures
        final(out)@ == old(out)@ + chars@.subrange(from as int, to as int),
{
    let mut i: usize = from;
    while i < to
        invariant
            from <= i <= to <= chars.len(),
            out@ == old(out)@ + chars@.subrange(from as int, i as int),
        decreases to - i,
    {
        push_char(out, chars[i]);
        i += 1;
        assert(chars@.subrange(from as int, i as int) == chars@.subrange(from as int, i - 1).push(
            chars@[i - 1],
        ));
    }
}

/// The text made of the characters `chars[from..to]`.
pub fn string_of_range(chars: &Vec<char>, from: usize, to: usize) -> (s: String)
    requires
        from <= to <= chars.len(),
    ensures
        s@ == chars@.subrange(from as int, to as int),
{
    let mut s = String::new();
    push_range(&mut s, chars, from, to);
    s
}

/// Whether `c` is whitespace.
pub fn is_whitespace(c: char) -> (r: bool)
    ensures
        r == is_white_space(c),
{
    let n: u32 = c as u32;
    (0x09 <= n && n <= 0x0D) || n == 0x20 || n == 0x85 || n == 0xA0 || n == 0x1680 || (0x2000 <= n
        && n <= 0x200A) || n == 0x2028 || n == 0x2029 || n == 0x202F || n == 0x205F || n == 0x3000
}

// ---------------------------------------------------------------------------------------------
// Trimming and searching
// ---------------------------------------------------------------------------------------------

/// The end of `chars[from..to]` once its trailing whitespace is cut off.
pub fn trim_end_at(chars: &Vec<char>, from: usize, to: usize) -> (end: usize)
    requires
        from <= to <= chars.len(),
    ensures
        from <= end <= to,
        chars@.subrange(from as int, end as int) == trim_end(chars@.subrange(from as int, to as int)),
{
    let mut end: usize = to;
    while end > from && is_whitespace(chars[end - 1])
        invariant
            from <= end <= to <= chars.len(),
            trim_end(chars@.subrange(from as int, end as int)) == trim_end(
                chars@.subrange(from as int, to as int),
            ),
        decreases end,
    {
        assert(chars@.subrange(from as int, end as int).drop_last() == chars@.subrange(
            from as int,
            end - 1,
        ));
        end -= 1;
    }
    end
}

/// The start of `chars[from..to]` once its leading whitespace is cut off.
pub fn trim_start_at(chars: &Vec<char>, from: usize, to: usize) -> (start: usize)
    requires
        from <= to <= chars.len(),
    ensures
        from <= start <= to,
        chars@.subrange(start as int, to as int) == trim_start(
            chars@.subrange(from as int, to as int),
        ),
{
    let mut start: usize = from;
    while start < to && is_whitespace(chars[start])
        invariant
            from <= start <= to <= chars.len(),
            trim_start(chars@.subrange(start as int, to as int)) == trim_start(
                chars@.subrange(from as int, to as int),
            ),
        decreases to - start,
    {
        assert(chars@.subrange(start as int, to as int).drop_first() == chars@.subrange(
            start + 1,
            to as int,
        ));
        start += 1;
    }
    start
}

/// The position in `chars[from..to]` of the first `c`, counted from `from`; `to - from` where
/// there is none.
pub fn find_char(chars: &Vec<char>, from: usize, to: usize, c: char) -> (n: usize)
    requires
        from <= to <= chars.len(),
    ensures
        n == first_index_of(chars@.subrange(from as int, to as int), c),
        n <= to - from,
        n < to - from ==> chars@[from + n] == c,
{
    let mut i: usize = from;
    while i < to && chars[i] != c
        invariant
            from <= i <= to <= chars.len(),
            first_index_of(chars@.subrange(from as int, to as int), c) == (i - from)
                + first_index_of(chars@.subrange(i as int, to as int), c),
        decreases to - i,
    {
        assert(chars@.subrange(i as int, to as int).drop_first() == chars@.subrange(
            i + 1,
            to as int,
        ));
        i += 1;
    }
    i - from
}

/// Whether `chars[from..to]` begins with the two characters `a`, `b`.
pub fn starts_with_pair(chars: &Vec<char>, from: usize, to: usize, a: char, b: char) -> (r: bool)
    requires
        from <= to <= chars.len(),
    ensures
        r == starts_with(chars@.subrange(from as int, to as int), seq![a, b]),
{
    let r = to - from >= 2 && chars[from] == a && chars[from + 1] == b;
    proof {
        let s = chars@.subrange(from as int, to as int);
        if s.len() >= 2 {
            assert(s.take(2)[0] == s[0] && s.take(2)[1] == s[1]);
            if r {
                assert(s.take(2) =~= seq![a, b]);
            } else {
                assert(seq![a, b][0] == a && seq![a, b][1] == b);
            }
        }
    }
    r
}

/// Whether `chars[from..to]` ends with the two characters `a`, `b`.
pub fn ends_with_pair(chars: &Vec<char>, from: usize, to: usize, a: char, b: char) -> (r: bool)
    requires
        from <= to <= chars.len(),
    ensures
        r == ends_with(chars@.subrange(from as int, to as int), seq![a, b]),
{
    let r = to - from >= 2 && chars[to - 2] == a && chars[to - 1] == b;
    proof {
        let s = chars@.subrange(from as int, to as int);
        if s.len() >= 2 {
            let t = s.skip(s.len() - 2);
            assert(t[0] == s[s.len() - 2] && t[1] == s[s.len() - 1]);
            if r {
                assert(t =~= seq![a, b]);
            } else {
                assert(seq![a, b][0] == a && seq![a, b][1] == b);
            }
        }
    }
    r
}

} // verus!
