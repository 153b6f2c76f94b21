use raven::history::model::History;
use raven::history::timestamp::{MAX_TIMESTAMP, MIN_TIMESTAMP};
use raven::import::zsh::{ParsedLine, Zsh};
use raven::import::{ImportError, LoadError, Loader};
use time::{Duration, OffsetDateTime};

struct MockLoader {
    history: Vec<History>,
}

impl MockLoader {
    fn new() -> Self {
        MockLoader {
            history: Vec::new(),
        }
    }
}

impl Loader for MockLoader {
    fn push(&mut self, hist: History) -> Result<(), LoadError> {
        self.history.push(hist);
        Ok(())
    }
}

// Runs the importer on the lines that a file with this content holds.
fn run_importer_with_content(content: &str) -> Result<Vec<History>, ImportError> {
    let mut text = String::from(content);
    if !content.is_empty() && !content.ends_with('\n') {
        text.push('\n');
    }
    let lines: Vec<String> = text.lines().map(|line| line.to_string()).collect();
    let mut mock_loader = MockLoader::new();
    Zsh::load(&lines, &mut mock_loader)?;
    Ok(mock_loader.history)
}

fn instant(history: &History) -> OffsetDateTime {
    OffsetDateTime::from_unix_timestamp(history.timestamp).unwrap()
}

#[test]
fn test_load_empty_file() {
    let history = run_importer_with_content("").unwrap();
    assert_eq!(
        history.len(),
        0,
        "Should import 0 commands from an empty file"
    );
}

#[test]
fn test_load_only_empty_lines() {
    let history = run_importer_with_content("\n\n  \t\n").unwrap();
    assert_eq!(
        history.len(),
        0,
        "Should import 0 commands from only empty/whitespace lines"
    );
}

#[test]
fn test_load_simple_extended_format() {
    let content = ": 1678886400:0;ls -l\n: 1678886500:0;cd /tmp";
    let history = run_importer_with_content(content).unwrap();

    assert_eq!(history.len(), 2, "Should import 2 commands");
    assert_eq!(history[0].command, "ls -l");
    assert_eq!(
        instant(&history[0]),
        OffsetDateTime::from_unix_timestamp(1_678_886_400).unwrap()
    );
    assert_eq!(history[1].command, "cd /tmp");
    assert_eq!(
        instant(&history[1]),
        OffsetDateTime::from_unix_timestamp(1_678_886_500).unwrap()
    );
}

#[test]
fn test_load_simple_non_extended_format() {
    let content = "echo hello\npwd";
    let history = run_importer_with_content(content).unwrap();

    assert_eq!(history.len(), 2, "Should import 2 commands");
    assert_eq!(history[0].command, "echo hello");
    let now = OffsetDateTime::now_utc();
    assert!((now - instant(&history[0])).abs() < Duration::seconds(5));

    assert_eq!(history[1].command, "pwd");
    assert_eq!(
        instant(&history[0]) - instant(&history[1]),
        Duration::seconds(1)
    );
}

#[test]
fn test_load_multi_line_extended_command() {
    let content = ": 1678887000:0;echo \\\\\n> line 2\\\\\n> line 3\n: 1678887100:0;another cmd";
    let history = run_importer_with_content(content).unwrap();

    assert_eq!(history.len(), 2, "Should import 2 commands");
    assert_eq!(history[0].command, "echo \\\n> line 2\\\n> line 3");
    assert_eq!(
        instant(&history[0]),
        OffsetDateTime::from_unix_timestamp(1_678_887_000).unwrap()
    );
    assert_eq!(history[1].command, "another cmd");
    assert_eq!(
        instant(&history[1]),
        OffsetDateTime::from_unix_timestamp(1_678_887_100).unwrap()
    );
}

#[test]
fn test_load_mixed_formats() {
    let content = "simple cmd 1\n: 1678888000:0;extended cmd 1\nsimple cmd 2\n: 1678888100:0;multi\\\\\nline\\\\\ncmd 2\nsimple cmd 3";
    let history = run_importer_with_content(content).unwrap();

    assert_eq!(history.len(), 5, "Should import 5 commands");

    let now = OffsetDateTime::now_utc();

    assert_eq!(history[0].command, "simple cmd 1");
    assert!((now - instant(&history[0])).abs() < Duration::seconds(5));

    assert_eq!(history[1].command, "extended cmd 1");
    assert_eq!(
        instant(&history[1]),
        OffsetDateTime::from_unix_timestamp(1_678_888_000).unwrap()
    );

    assert_eq!(history[2].command, "simple cmd 2");
    assert_eq!(
        instant(&history[0]) - instant(&history[2]),
        Duration::seconds(1)
    );

    assert_eq!(history[3].command, "multi\\\nline\\\ncmd 2");
    assert_eq!(
        instant(&history[3]),
        OffsetDateTime::from_unix_timestamp(1_678_888_100).unwrap()
    );

    assert_eq!(history[4].command, "simple cmd 3");
    assert_eq!(
        instant(&history[2]) - instant(&history[4]),
        Duration::seconds(1)
    );
}

#[test]
fn test_load_malformed_extended_lines() {
    let content = ": 1234567890;command_missing_colon\n: invalid_timestamp:0;valid_command\n: 1234567890::command_missing_semicolon";
    let history = run_importer_with_content(content).unwrap();

    assert_eq!(
        history.len(),
        3,
        "Should import 3 commands (treated as simple)"
    );
    let now = OffsetDateTime::now_utc();

    assert_eq!(history[0].command, ": 1234567890;command_missing_colon");
    assert!((now - instant(&history[0])).abs() < Duration::seconds(5));

    assert_eq!(history[1].command, ": invalid_timestamp:0;valid_command");
    assert_eq!(
        instant(&history[0]) - instant(&history[1]),
        Duration::seconds(1)
    );

    assert_eq!(
        history[2].command,
        ": 1234567890::command_missing_semicolon"
    );
    assert_eq!(
        instant(&history[1]) - instant(&history[2]),
        Duration::seconds(1)
    );
}

#[test]
fn test_load_multi_line_non_extended_command() {
    let content = "curl -fLo ~/some/dir/in/home --create-dirs \\\\\n    https://some-random-webside.thing";
    let history = run_importer_with_content(content).unwrap();

    assert_eq!(history.len(), 1, "Should import as single command");
    assert_eq!(
        history[0].command,
        "curl -fLo ~/some/dir/in/home --create-dirs \\\n    https://some-random-webside.thing"
    );

    let now = OffsetDateTime::now_utc();
    assert!((now - instant(&history[0])).abs() < Duration::seconds(5));
}

#[test]
fn test_load_file_ends_mid_extended_command() {
    let content = "cmd1\n: 1678889000:0;line1\\\\\nline2\\\\\nline3";
    let history = run_importer_with_content(content).unwrap();

    assert_eq!(history.len(), 2, "Should import 2 commands");
    let now = OffsetDateTime::now_utc();
    assert_eq!(history[0].command, "cmd1");
    assert!((now - instant(&history[0])).abs() < Duration::seconds(5));

    assert_eq!(history[1].command, "line1\\\nline2\\\nline3");
    assert_eq!(
        instant(&history[1]),
        OffsetDateTime::from_unix_timestamp(1_678_889_000).unwrap()
    );
}

#[test]
fn test_load_extended_command_with_no_extra_lines() {
    let content = ": 1678890000:0;single line command";
    let history = run_importer_with_content(content).unwrap();

    assert_eq!(history.len(), 1, "Should import 1 command");
    assert_eq!(history[0].command, "single line command");
    assert_eq!(
        instant(&history[0]),
        OffsetDateTime::from_unix_timestamp(1_678_890_000).unwrap()
    );
}

// The grammar of the lines and the made-up times, with a fixed present.

const NOW: i64 = 1_700_000_000;

fn commands(records: &[History]) -> Vec<&str> {
    records.iter().map(|h| h.command.as_str()).collect()
}

fn stamps(records: &[History]) -> Vec<i64> {
    records.iter().map(|h| h.timestamp).collect()
}

#[test]
fn imported_records_have_no_id_exit_code_or_directory() {
    let records = Zsh::parse_text(": 1678886400:0;ls -l\npwd", NOW);
    assert_eq!(records.len(), 2);
    for record in &records {
        assert_eq!(record.id, -1);
        assert_eq!(record.exit_code, -1);
        assert_eq!(record.cwd, "unknown");
    }
    assert_eq!(stamps(&records), vec![1_678_886_400, NOW]);
}

#[test]
fn made_up_times_count_down_from_now() {
    let records = Zsh::parse_text("a\n: 5:0;b\nc\n: broken\nd", NOW);
    assert_eq!(commands(&records), vec!["a", "b", "c", ": broken", "d"]);
    assert_eq!(stamps(&records), vec![NOW, 5, NOW - 1, NOW - 2, NOW - 3]);
}

#[test]
fn file_that_ends_in_a_continuation_still_gives_its_record() {
    let records = Zsh::parse_text("first \\\\\nmore text", NOW);
    assert_eq!(commands(&records), vec!["first \\\nmore text"]);
    let records = Zsh::parse_text("only \\\\", NOW);
    assert_eq!(commands(&records), vec!["only \\"]);
    let records = Zsh::parse_text(": 7:0;open \\\\\n", NOW);
    assert_eq!(commands(&records), vec!["open \\"]);
    assert_eq!(stamps(&records), vec![7]);
}

#[test]
fn malformed_extended_line_is_one_simple_record() {
    for line in [
        ": 1234567890;no_colon",
        ": abc:0;not a number",
        ": 12:0 no semicolon",
        ": :0;empty time",
        ": 99999999999999999999:0;too long for the machine",
        ": 253402300800:0;one second past the last instant",
        ": -377705116801:0;one second before the first instant",
    ] {
        let records = Zsh::parse_text(line, NOW);
        assert_eq!(commands(&records), vec![line]);
        assert_eq!(stamps(&records), vec![NOW]);
    }
}

#[test]
fn classification_of_lines() {
    assert!(matches!(Zsh::classify_and_parse_line(""), ParsedLine::Empty));
    assert!(matches!(Zsh::classify_and_parse_line(" \t\u{3000}"), ParsedLine::Empty));
    match Zsh::classify_and_parse_line("ls -l  \t") {
        ParsedLine::Simple(line) => assert_eq!(line, "ls -l"),
        other => panic!("{:?}", other),
    }
    match Zsh::classify_and_parse_line(":missing space") {
        ParsedLine::Simple(line) => assert_eq!(line, ":missing space"),
        other => panic!("{:?}", other),
    }
    match Zsh::classify_and_parse_line(":  +42 :17;  echo a;b:c \\\\  ") {
        ParsedLine::ExtendedHeader(timestamp, command, more) => {
            assert_eq!(timestamp, 42);
            assert_eq!(command, "echo a;b:c \\\\");
            assert!(more);
        }
        other => panic!("{:?}", other),
    }
    match Zsh::classify_and_parse_line(": -5:0;x\\") {
        ParsedLine::ExtendedHeader(timestamp, command, more) => {
            assert_eq!(timestamp, -5);
            assert_eq!(command, "x\\");
            assert!(!more);
        }
        other => panic!("{:?}", other),
    }
    match Zsh::classify_and_parse_line(": 1:0;") {
        ParsedLine::ExtendedHeader(timestamp, command, more) => {
            assert_eq!(timestamp, 1);
            assert_eq!(command, "");
            assert!(!more);
        }
        other => panic!("{:?}", other),
    }
    match Zsh::classify_and_parse_line(": 1 2:0;x") {
        ParsedLine::MalformedExtended(line) => assert_eq!(line, ": 1 2:0;x"),
        other => panic!("{:?}", other),
    }
}

#[test]
fn instants_at_the_ends_of_the_range() {
    for (seconds, valid) in [
        (MAX_TIMESTAMP, true),
        (MAX_TIMESTAMP + 1, false),
        (MIN_TIMESTAMP, true),
        (MIN_TIMESTAMP - 1, false),
        (0, true),
    ] {
        assert_eq!(OffsetDateTime::from_unix_timestamp(seconds).is_ok(), valid);
        let line = format!(": {}:0;cmd", seconds);
        let extended = matches!(
            Zsh::classify_and_parse_line(&line),
            ParsedLine::ExtendedHeader(..)
        );
        assert_eq!(extended, valid, "{}", line);
    }
}

#[test]
fn empty_lines_inside_and_outside_of_commands() {
    // Inside a continued command an empty line is kept, elsewhere it is dropped.
    let records = Zsh::parse_text(": 9:0;a\\\\\n\nb\n\n\nc", NOW);
    assert_eq!(commands(&records), vec!["a\\\n\nb", "c"]);
    // A simple command keeps the empty line that follows a continuation, and no second one.
    let records = Zsh::parse_text("x \\\\\n\n   \ny", NOW);
    assert_eq!(commands(&records), vec!["x \\\n\ny"]);
    // An extended command keeps every empty line while it is continued.
    let records = Zsh::parse_text(": 9:0;x \\\\\n\n   \ny", NOW);
    assert_eq!(commands(&records), vec!["x \\\n\n\ny"]);
}

#[test]
fn header_ends_the_command_before_it() {
    let records = Zsh::parse_text("open \\\\\n: 3:0;next", NOW);
    assert_eq!(commands(&records), vec!["open \\", "next"]);
    assert_eq!(stamps(&records), vec![NOW, 3]);
}

#[test]
fn text_is_cut_into_lines_like_a_file() {
    let records = Zsh::parse_text("one\r\ntwo\rstill two\n\nthree\r", NOW);
    assert_eq!(commands(&records), vec!["one", "two\rstill two", "three"]);
    assert!(Zsh::parse_text("", NOW).is_empty());
    assert!(Zsh::parse_text("\n", NOW).is_empty());
}

#[test]
fn parse_lines_and_load_agree() {
    let lines: Vec<String> = vec![
        "a\\\\".to_string(),
        "b".to_string(),
        ": 11:0;c".to_string(),
    ];
    let parsed = Zsh::parse_lines(&lines, NOW);
    let mut loader = MockLoader::new();
    Zsh::load_lines_at(&lines, NOW, &mut loader).unwrap();
    assert_eq!(parsed, loader.history);
    assert_eq!(commands(&parsed), vec!["a\\\nb", "c"]);
}

struct Refusing {
    room: usize,
    taken: Vec<History>,
}

impl Loader for Refusing {
    fn push(&mut self, hist: History) -> Result<(), LoadError> {
        if self.taken.len() == self.room {
            return Err(LoadError);
        }
        self.taken.push(hist);
        Ok(())
    }
}

#[test]
fn loader_error_ends_the_import() {
    let lines: Vec<String> = vec!["a".to_string(), "b".to_string(), "c".to_string()];
    let mut loader = Refusing { room: 2, taken: Vec::new() };
    assert!(Zsh::load_lines_at(&lines, NOW, &mut loader).is_err());
    assert_eq!(commands(&loader.taken), vec!["a", "b"]);
}

#[test]
fn names_of_the_history_file() {
    assert_eq!(Zsh::NAME, "zsh");
    assert_eq!(Zsh::histfile_names(), vec![".zhistory", ".zsh_history", ".histfile"]);
}
