use raven::database::sqlite::query::{Query, SqlString};

#[test]
fn test_to_sql_simple_delete() {
    let query = Query::delete().table("history").where_("id").to_owned();

    assert_eq!(
        query.to_sql(),
        String::from("DELETE FROM history WHERE id = :w_id")
    );
}

#[test]
fn test_to_sql_multi_where() {
    let query = Query::delete()
        .table("logs")
        .where_("level")
        .where_("timestamp")
        .to_owned();

    assert_eq!(
        query.to_sql(),
        String::from("DELETE FROM logs WHERE level = :w_level AND timestamp = :w_timestamp")
    );
}

#[test]
fn test_to_sql_delete_all() {
    let query = Query::delete().table("temp_data").to_owned();

    assert_eq!(query.to_sql(), String::from("DELETE FROM temp_data"));
}

#[test]
fn insert_test_to_sql() {
    let query = Query::insert()
        .table("history")
        .column("command")
        .column("cwd")
        .to_owned();

    assert_eq!(
        query.to_sql(),
        String::from("INSERT INTO history (command, cwd) VALUES (:command, :cwd)")
    );
}

#[test]
fn test_to_sql_fts() {
    let query = Query::select()
        .column("h.id")
        .column("h.command")
        .column("h.cwd")
        .column("h.exit_code")
        .column("h.timestamp")
        .count("h.id", "count_id")
        .from("history h JOIN history_fts fts ON h.rowid = fts.rowid")
        .where_("h.exit_code")
        .where_("fts.rank")
        .match_fts("history_fts")
        .limit(100)
        .orderby("rank", "DESC")
        .to_owned();

    let mut expected = String::new();
    expected.push_str(
        "SELECT h.id, h.command, h.cwd, h.exit_code, h.timestamp, count(h.id) AS count_id ",
    );
    expected.push_str("FROM history h JOIN history_fts fts ON h.rowid = fts.rowid ");
    expected.push_str(
        "WHERE h.exit_code = :h_exit_code AND fts.rank = :fts_rank AND history_fts MATCH :history_fts ",
    );
    expected.push_str("ORDER BY rank DESC LIMIT 100 ");
    assert_eq!(query.to_sql(), expected);
}

#[test]
fn test_to_sql_no_fts() {
    let query = Query::select()
        .column("id")
        .column("command")
        .from("history")
        .where_("id")
        .limit(50)
        .orderby("timestamp", "ASC")
        .to_owned();

    let mut expected = String::new();
    expected.push_str("SELECT id, command FROM history ");
    expected.push_str("WHERE id = :id ");
    expected.push_str("ORDER BY timestamp ASC LIMIT 50 ");
    assert_eq!(query.to_sql(), expected);
}

#[test]
fn update_test_to_sql() {
    let query = Query::update()
        .table("history")
        .column("command")
        .column("cwd")
        .where_("id")
        .to_owned();

    assert_eq!(
        query.to_sql(),
        String::from("UPDATE history SET command = :command, cwd = :cwd WHERE id = :w_id")
    );
}
