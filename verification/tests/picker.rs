use raven::duration::format_duration;
use raven::history::model::History;
use raven::picker::{
    copy_of, quick_pick_number, quick_pick_target, selection_after_delete, time_since, Picker,
    QueryInput, Scope, LIST_LIMIT,
};
use raven::MatchMode;

#[test]
fn test_clamp_cursor() {
    let line = QueryInput::new("hello".to_string());
    assert_eq!(line.clamp_cursor(0), 0);
    assert_eq!(line.clamp_cursor(3), 3);
    assert_eq!(line.clamp_cursor(5), 5);
    assert_eq!(line.clamp_cursor(10), 5);
}

#[test]
fn test_move_cursor_left() {
    let mut line = QueryInput::new("test".to_string());
    line.set_cursor(3);
    line.move_cursor_left();
    assert_eq!(line.cursor_position(), 2);
    line.move_cursor_left();
    line.move_cursor_left();
    assert_eq!(line.cursor_position(), 0);
    line.move_cursor_left();
    assert_eq!(line.cursor_position(), 0);
}

#[test]
fn test_move_cursor_right() {
    let mut line = QueryInput::new("test".to_string());
    assert_eq!(line.cursor_position(), 4);
    line.set_cursor(1);
    line.move_cursor_right();
    assert_eq!(line.cursor_position(), 2);
    line.move_cursor_right();
    line.move_cursor_right();
    assert_eq!(line.cursor_position(), 4);
    line.move_cursor_right();
    assert_eq!(line.cursor_position(), 4);
}

#[test]
fn test_enter_char() {
    let mut line = QueryInput::new("test".to_string());
    line.set_cursor(2);
    line.enter_char('X');
    assert_eq!(line.input(), "teXst");
    assert_eq!(line.cursor_position(), 3);

    line.set_cursor(0);
    line.enter_char('Y');
    assert_eq!(line.input(), "YteXst");
    assert_eq!(line.cursor_position(), 1);

    line.set_cursor(line.input().chars().count());
    line.enter_char('Z');
    assert_eq!(line.input(), "YteXstZ");
    assert_eq!(line.cursor_position(), 7);
}

#[test]
fn test_delete_char() {
    let mut line = QueryInput::new("test".to_string());
    line.set_cursor(3);
    assert!(line.delete_char());
    assert_eq!(line.input(), "tet");
    assert_eq!(line.cursor_position(), 2);

    line.set_cursor(1);
    assert!(line.delete_char());
    assert_eq!(line.input(), "et");
    assert_eq!(line.cursor_position(), 0);

    assert!(!line.delete_char());
    assert_eq!(line.input(), "et");
    assert_eq!(line.cursor_position(), 0);

    let mut wide = QueryInput::new("你好".to_string());
    assert_eq!(wide.cursor_position(), 2);
    wide.set_cursor(1);
    assert!(wide.delete_char());
    assert_eq!(wide.input(), "好");
    assert_eq!(wide.cursor_position(), 0);
    wide.enter_char('é');
    assert_eq!(wide.input(), "é好");
    let copy = wide.clone();
    assert_eq!(copy.input(), "é好");
    assert_eq!(copy.cursor_position(), 1);
}

#[test]
fn scope_sets_the_filters_of_the_list() {
    assert_eq!(Scope::Cwd.toggled(), Scope::All);
    assert_eq!(Scope::All.toggled(), Scope::Cwd);
    let here = Scope::Cwd.filters("/work");
    assert_eq!(here.cwd, Some("/work".to_string()));
    assert_eq!(here.exit, None);
    assert_eq!(here.limit, Some(500));
    assert_eq!(here.mode, MatchMode::Fuzzy);
    let everywhere = Scope::All.filters("/work");
    assert_eq!(everywhere.cwd, None);
    assert_eq!(everywhere.exit, None);
    assert_eq!(everywhere.limit, Some(LIST_LIMIT));
}

#[test]
fn selection_follows_a_deletion() {
    assert_eq!(selection_after_delete(0, 0), None);
    assert_eq!(selection_after_delete(3, 3), Some(2));
    assert_eq!(selection_after_delete(7, 3), Some(2));
    assert_eq!(selection_after_delete(1, 3), Some(1));
    assert_eq!(selection_after_delete(0, 1), Some(0));
}

#[test]
fn quick_picks_reach_the_five_entries_behind_the_selection() {
    assert_eq!(quick_pick_number(0, None), None);
    assert_eq!(quick_pick_number(1, None), Some(1));
    assert_eq!(quick_pick_number(5, None), Some(5));
    assert_eq!(quick_pick_number(6, None), None);
    assert_eq!(quick_pick_number(3, Some(3)), None);
    assert_eq!(quick_pick_number(4, Some(3)), Some(1));
    assert_eq!(quick_pick_number(8, Some(3)), Some(5));
    assert_eq!(quick_pick_number(9, Some(3)), None);
    assert_eq!(quick_pick_number(usize::MAX, Some(usize::MAX - 1)), Some(1));

    assert_eq!(quick_pick_target(None, 1, 7), Some(1));
    assert_eq!(quick_pick_target(Some(2), 4, 7), Some(6));
    assert_eq!(quick_pick_target(Some(2), 5, 7), None);
    assert_eq!(quick_pick_target(Some(2), 0, 7), None);
    assert_eq!(quick_pick_target(Some(2), 6, 70), None);
    assert_eq!(quick_pick_target(Some(9), 1, 7), None);
    assert_eq!(quick_pick_target(Some(usize::MAX), 5, usize::MAX), None);
}

#[test]
fn test_time_since() {
    let now = 1_700_000_000;
    assert_eq!(time_since(now, now - 5), "5s");
    assert_eq!(time_since(now, now - 2 * 60), "2m");
    assert_eq!(time_since(now, now - 3 * 3600), "3h");
    assert_eq!(time_since(now, now - 4 * 86400), "4d");
    assert_eq!(time_since(now, now), "0s");
    assert_eq!(time_since(now, now + 30), "0s");
    assert_eq!(time_since(i64::MAX, i64::MIN), "584542046090y");
}

#[test]
fn durations_by_their_most_significant_unit() {
    assert_eq!(format_duration(125, 0), "2m");
    assert_eq!(format_duration(60, 0), "1m");
    assert_eq!(format_duration(59, 999_999_999), "59s");
    assert_eq!(format_duration(5, 0), "5s");
    assert_eq!(format_duration(0, 500_000_000), "500ms");
    assert_eq!(format_duration(0, 999_999), "999us");
    assert_eq!(format_duration(0, 1_000), "1us");
    assert_eq!(format_duration(0, 999), "999ns");
    assert_eq!(format_duration(0, 1), "1ns");
    assert_eq!(format_duration(0, 0), "0s");
    assert_eq!(format_duration(3_600, 0), "1h");
    assert_eq!(format_duration(86_399, 0), "23h");
    assert_eq!(format_duration(86_400, 0), "1d");
    assert_eq!(format_duration(2_630_015, 0), "30d");
    assert_eq!(format_duration(2_630_016, 0), "1mo");
    assert_eq!(format_duration(31_557_599, 0), "11mo");
    assert_eq!(format_duration(31_557_600, 0), "1y");
    assert_eq!(format_duration(u64::MAX, 999_999_999), "584542046090y");
    // Eleven months and what is left of the year, which is less than a month.
    assert_eq!(format_duration(31_557_600 + 12 * 2_630_016 - 2_630_016, 0), "1y");
}

fn entry(id: i64, command: &str) -> History {
    History {
        id,
        command: command.to_string(),
        timestamp: 1_700_000_000,
        exit_code: 0,
        cwd: String::new(),
    }
}

#[test]
fn test_quit() {
    let mut app = Picker::new(String::new());
    assert!(app.running);
    app.quit();
    assert!(!app.running);
}

#[test]
fn test_select() {
    let mut app = Picker::new(String::new());
    app.commands = vec![entry(1, "cmd1"), entry(2, "cmd2")];
    assert!(app.selected.is_none());
    assert!(app.running);

    app.select(1);

    assert!(app.selected.is_some());
    assert_eq!(app.selected.unwrap().command, "cmd2");
    assert!(!app.running);
}

#[test]
fn removal_moves_the_selection() {
    let mut app = Picker::new("cmd".to_string());
    assert_eq!(app.query.input(), "cmd");
    assert_eq!(app.query.cursor_position(), 3);
    app.commands = vec![entry(1, "cmd1"), entry(2, "cmd2"), entry(3, "cmd3")];
    assert_eq!(app.remove(2), Some(1));
    assert_eq!(app.remove(0), Some(0));
    assert_eq!(app.commands, vec![entry(2, "cmd2")]);
    assert_eq!(app.remove(0), None);
    assert!(app.commands.is_empty());
    assert!(app.running);
    assert_eq!(copy_of(&entry(7, "x")), entry(7, "x"));
}
