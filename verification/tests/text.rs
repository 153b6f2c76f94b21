use raven::text::edit::{replace_pairs, split_lines, word_ranges};
use raven::text::number::{push_decimal, push_signed_decimal};
use raven::text::{chars_of, is_whitespace, trim_end_at, trim_start_at};

#[test]
fn whitespace_is_what_the_standard_library_calls_whitespace() {
    for code in 0..=0x11_0000u32 {
        if let Some(c) = char::from_u32(code) {
            assert_eq!(is_whitespace(c), c.is_whitespace(), "U+{:04X}", code);
        }
    }
}

#[test]
fn characters_of_a_text() {
    assert_eq!(chars_of(""), Vec::<char>::new());
    assert_eq!(chars_of("a你\u{1F600}"), vec!['a', '你', '\u{1F600}']);
}

#[test]
fn trimming_gives_the_bounds_of_what_is_left() {
    let chars = chars_of(" \t ab c \u{2003}\n");
    assert_eq!(trim_end_at(&chars, 0, chars.len()), 7);
    assert_eq!(trim_start_at(&chars, 0, chars.len()), 3);
    assert_eq!(trim_end_at(&chars, 0, 3), 0);
    assert_eq!(trim_start_at(&chars, 7, chars.len()), chars.len());
    for text in ["", " ", "a", " a", "a ", "  a b  ", "\u{3000}x\u{85}"] {
        let chars = chars_of(text);
        let end = trim_end_at(&chars, 0, chars.len());
        let start = trim_start_at(&chars, 0, end);
        let trimmed: String = chars[start..end].iter().collect();
        assert_eq!(trimmed, text.trim(), "{:?}", text);
    }
}

#[test]
fn words_are_cut_at_whitespace() {
    for text in ["", "   ", "one", " one", "one ", "one two", "  a\tb\n c\u{3000}d  ", "\"q\" x"] {
        let chars = chars_of(text);
        let words: Vec<String> = word_ranges(&chars)
            .iter()
            .map(|(from, to)| chars[*from..*to].iter().collect())
            .collect();
        let expected: Vec<String> = text.split_whitespace().map(|w| w.to_string()).collect();
        assert_eq!(words, expected, "{:?}", text);
    }
}

#[test]
fn lines_are_cut_at_line_feeds() {
    for text in [
        "",
        "\n",
        "a",
        "a\n",
        "a\nb",
        "a\r\nb\r\n",
        "a\rb\n",
        "a\r",
        "\r\n",
        "\n\n",
        "x\n\ny",
        "\r\r\n",
    ] {
        let expected: Vec<String> = text.lines().map(|l| l.to_string()).collect();
        assert_eq!(split_lines(text), expected, "{:?}", text);
    }
}

#[test]
fn pairs_are_replaced_from_the_left() {
    let replace = |text: &str| replace_pairs(&chars_of(text), ('\\', '\\'), '\\');
    for text in ["", "a", "\\", "\\\\", "\\\\\\", "\\\\\\\\", "a\\\\b\\c\\\\", "\\a\\"] {
        assert_eq!(replace(text), text.replace("\\\\", "\\"), "{:?}", text);
    }
    assert_eq!(replace_pairs(&chars_of("aabaaa"), ('a', 'a'), 'c'), "cbca");
}

#[test]
fn numbers_in_decimal() {
    let unsigned = |n: u64| {
        let mut out = String::from(">");
        push_decimal(&mut out, n);
        out
    };
    assert_eq!(unsigned(0), ">0");
    assert_eq!(unsigned(7), ">7");
    assert_eq!(unsigned(10), ">10");
    assert_eq!(unsigned(1_000_000), ">1000000");
    assert_eq!(unsigned(u64::MAX), ">18446744073709551615");
    let signed = |n: i64| {
        let mut out = String::new();
        push_signed_decimal(&mut out, n);
        out
    };
    for n in [0, 1, -1, 9, -10, 123_456, i64::MAX, i64::MIN, i64::MIN + 1] {
        assert_eq!(signed(n), n.to_string());
    }
}
