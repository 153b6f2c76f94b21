use raven::database::sqlite::migrate::{
    get_user_version, migrate, read_version_statement, run_migrations, set_user_version,
    write_version_statement, SchemaVersion, LATEST_STABLE_SCHEMA,
};
use raven::database::sqlite::Sqlite;
use raven::database::{Database, DatabaseError, ErrorKind};
use raven::history::model::History;
use raven::{HistoryFilters, MatchMode};
use rusqlite::Connection;
use std::time::Duration;
use time::OffsetDateTime;

// An in-memory database with the schema of the given version.
fn memory_db(target_version: Option<SchemaVersion>) -> Sqlite {
    let mut conn = Connection::open_in_memory().expect("Failed to open in-memory database");
    let _ = run_migrations(&mut conn, SchemaVersion::V0.to_u32(), target_version);
    Sqlite { conn }
}

fn sample_history(id: i64, command: &str) -> History {
    History::builder()
        .id(id)
        .timestamp(OffsetDateTime::now_utc().unix_timestamp())
        .command(command.to_string())
        .cwd("/tmp".to_string())
        .exit_code(0)
        .build()
}

fn count_in_schema(conn: &Connection, sql: &str) -> i64 {
    conn.query_row(sql, [], |row| row.get::<_, i64>(0)).unwrap_or(-1)
}

#[test]
fn test_run_migrations_v0_to_latest_stable_success() {
    let mut db = memory_db(Some(SchemaVersion::V0));
    let initial_version = get_user_version(&db.conn).expect("Get version failed");
    let result = run_migrations(&mut db.conn, initial_version, Some(LATEST_STABLE_SCHEMA));
    assert!(result.is_ok(), "Migration failed: {:?}", result.err());
}

#[test]
fn test_run_migrations_v1_to_latest_stable_success() {
    let mut db = memory_db(Some(SchemaVersion::V1));
    let initial_version = get_user_version(&db.conn).expect("Get version failed");
    let result = run_migrations(&mut db.conn, initial_version, Some(LATEST_STABLE_SCHEMA));
    assert!(result.is_ok(), "Migration failed: {:?}", result.err());
}

#[test]
fn test_run_migrations_v1_to_v2_success() {
    let mut db = memory_db(Some(SchemaVersion::V1));
    let initial_version = get_user_version(&db.conn).expect("Get version failed");
    assert_eq!(initial_version, SchemaVersion::V1.to_u32());

    let history_old =
        "SELECT COUNT(*) FROM sqlite_master where type = 'table' AND name = 'history_old'";
    assert!(
        count_in_schema(&db.conn, history_old) != 1,
        "history_old should not exist"
    );

    let result = run_migrations(&mut db.conn, initial_version, Some(SchemaVersion::V2));

    assert!(result.is_ok(), "Migration failed: {:?}", result.err());
    assert_eq!(
        get_user_version(&db.conn).expect("Get version failed"),
        SchemaVersion::V2.to_u32(),
        "Database version should be updated to V2"
    );
    assert!(
        count_in_schema(&db.conn, history_old) != 1,
        "history_old should not exist"
    );
}

#[test]
fn test_run_migrations_v2_to_v3_success() {
    let mut db = memory_db(Some(SchemaVersion::V2));
    let initial_version = get_user_version(&db.conn).expect("Get version failed");
    assert_eq!(initial_version, SchemaVersion::V2.to_u32());

    let history_fts =
        "SELECT COUNT(*) FROM sqlite_master where type = 'table' AND name = 'history_fts'";
    let history_triggers =
        "SELECT COUNT(*) FROM sqlite_master where type = 'trigger' AND tbl_name = 'history'";

    assert!(
        count_in_schema(&db.conn, history_fts) != 1,
        "history_fts should not exist in V2 schema"
    );
    assert!(
        count_in_schema(&db.conn, history_triggers) != 3,
        "history_triggers should not exist in V2 schema"
    );

    let result = run_migrations(&mut db.conn, initial_version, Some(SchemaVersion::V3));

    assert!(result.is_ok(), "Migration failed: {:?}", result.err());
    assert_eq!(
        get_user_version(&db.conn).expect("Get version failed"),
        SchemaVersion::V3.to_u32(),
        "Database version should be updated to V3"
    );
    assert!(
        count_in_schema(&db.conn, history_fts) == 1,
        "history_fts should exist in Schema V3."
    );
    assert!(
        count_in_schema(&db.conn, history_triggers) == 3,
        "history_triggers should exist in V3 schema"
    );
}

#[test]
fn test_run_migrations_no_migration_needed() {
    let mut db = memory_db(Some(LATEST_STABLE_SCHEMA));
    let initial_version = get_user_version(&db.conn).expect("Get version failed");
    assert_eq!(initial_version, LATEST_STABLE_SCHEMA.to_u32());

    let result = run_migrations(&mut db.conn, initial_version, Some(LATEST_STABLE_SCHEMA));

    assert!(
        result.is_ok(),
        "Migration failed unexpectedly: {:?}",
        result.err()
    );
    assert_eq!(
        get_user_version(&db.conn).expect("Get version failed"),
        LATEST_STABLE_SCHEMA.to_u32(),
        "Database version should remain unchanged"
    );
}

#[test]
fn test_save_and_get() {
    let mut db = memory_db(Some(LATEST_STABLE_SCHEMA));
    let history_in = sample_history(1, "echo test");

    let id = db.save(&history_in).expect("Failed to save history");
    assert!(id > 0);

    let history_out = db
        .get(id)
        .expect("Failed to get history")
        .expect("History not found");

    assert_eq!(history_out.id, id);
    assert_eq!(history_out.command, history_in.command);
    assert_eq!(history_out.cwd, history_in.cwd);
    assert_eq!(history_out.exit_code, history_in.exit_code);
    assert_eq!(history_out.timestamp, history_in.timestamp);
}

#[test]
fn test_save_bulk() {
    let mut db = memory_db(Some(LATEST_STABLE_SCHEMA));
    let histories = vec![
        sample_history(1, "echo 1"),
        sample_history(2, "echo 2"),
        sample_history(3, "echo 3"),
    ];

    let ids = db
        .save_bulk(&histories)
        .expect("Failed to save bulk history");
    assert_eq!(ids.len(), 3);
    assert!(ids.iter().all(|&id| id > 0));

    let total = db.get_history_total().expect("Failed to get total");
    assert_eq!(total, 3);
}

#[test]
fn test_update() {
    let mut db = memory_db(Some(LATEST_STABLE_SCHEMA));
    let mut history = sample_history(1, "initial command");

    let id = db.save(&history).expect("Failed to save history");
    history.id = id;
    history.command = "updated command".to_string();
    history.exit_code = 1;

    db.update(&history).expect("Failed to update history");

    let updated_history = db
        .get(id)
        .expect("Failed to get updated history")
        .expect("Updated history not found");

    assert_eq!(updated_history.id, id);
    assert_eq!(updated_history.command, "updated command");
    assert_eq!(updated_history.exit_code, 1);
}

#[test]
fn test_update_unsaved_fails() {
    let db = memory_db(Some(LATEST_STABLE_SCHEMA));
    let history_unsaved = History::capture()
        .timestamp((OffsetDateTime::now_utc() - Duration::from_secs(30)).unix_timestamp())
        .command("ls -l /home".to_string())
        .cwd("/home".to_string())
        .build();

    let result = db.update(&history_unsaved.into());
    assert!(result.is_err());
    if let Err(e) = result {
        assert!(e.msg.contains("Cannot update object with -1 ID"));
    }
}

#[test]
fn test_search() {
    let mut db = memory_db(Some(LATEST_STABLE_SCHEMA));
    let h1 = History::builder()
        .id(1)
        .timestamp((OffsetDateTime::now_utc() - Duration::from_secs(30)).unix_timestamp())
        .command("ls -l /home".to_string())
        .cwd("/home".to_string())
        .exit_code(0)
        .build();
    let h2 = History::builder()
        .id(2)
        .timestamp((OffsetDateTime::now_utc() - Duration::from_secs(20)).unix_timestamp())
        .command("grep test file.txt".to_string())
        .cwd("/tmp".to_string())
        .exit_code(1)
        .build();
    let h3 = History::builder()
        .id(3)
        .timestamp((OffsetDateTime::now_utc() - Duration::from_secs(10)).unix_timestamp())
        .command("cargo test --all".to_string())
        .cwd("/home/user/project".to_string())
        .exit_code(0)
        .build();

    db.save_bulk(&[h1.clone(), h2.clone(), h3.clone()])
        .expect("Failed to save for search");

    let results = db
        .search("test", HistoryFilters::default())
        .expect("Search failed");
    assert_eq!(results.len(), 2);
    assert!(results.iter().any(|h| h.command == h2.command));
    assert!(results.iter().any(|h| h.command == h3.command));

    let results = db
        .search(
            "ca",
            HistoryFilters {
                ..Default::default()
            },
        )
        .expect("Search failed");
    assert_eq!(results.len(), 1);
    assert_eq!(results[0].command, h3.command);

    let results = db
        .search(
            "",
            HistoryFilters {
                cwd: Some("/tmp".to_string()),
                ..Default::default()
            },
        )
        .expect("Search failed");
    assert_eq!(results.len(), 1);
    assert_eq!(results[0].command, h2.command);

    let results = db
        .search(
            "",
            HistoryFilters {
                exit: Some(0),
                ..Default::default()
            },
        )
        .expect("Search failed");
    assert_eq!(results.len(), 2);
    assert!(results.iter().any(|h| h.command == h1.command));
    assert!(results.iter().any(|h| h.command == h3.command));

    let results = db
        .search(
            "",
            HistoryFilters {
                limit: Some(1),
                ..Default::default()
            },
        )
        .expect("Search failed");
    assert_eq!(results.len(), 1);
    assert_eq!(results[0].command, h3.command);
}

#[test]
fn test_delete() {
    let mut db = memory_db(Some(LATEST_STABLE_SCHEMA));
    let history = sample_history(1, "to be deleted");

    let id = db.save(&history).expect("Failed to save history");
    assert!(db.get(id).expect("Get failed").is_some());

    db.delete(id).expect("Failed to delete history");

    let result = db.get(id);
    assert!(result.is_ok());
    assert!(result.unwrap().is_none());

    let delete_again_result = db.delete(id);
    assert!(delete_again_result.is_ok());

    let delete_invalid_result = db.delete(-1);
    assert!(delete_invalid_result.is_ok());
}

#[test]
fn test_get_history_total() {
    let mut db = memory_db(Some(LATEST_STABLE_SCHEMA));

    let total_initial = db.get_history_total().expect("Failed to get initial total");
    assert_eq!(total_initial, 0);

    db.save(&sample_history(1, "cmd 1")).expect("Save 1 failed");
    db.save(&sample_history(2, "cmd 2")).expect("Save 2 failed");

    let total_after_saves = db
        .get_history_total()
        .expect("Failed to get total after saves");
    assert_eq!(total_after_saves, 2);

    let id = db.save(&sample_history(3, "cmd 3")).expect("Save 3 failed");
    db.delete(id).expect("Delete failed");

    let total_after_delete = db
        .get_history_total()
        .expect("Failed to get total after delete");
    assert_eq!(total_after_delete, 2);
}

// The schema, the errors and the guarantees of the store.

fn schema_of(conn: &Connection) -> Vec<(String, String)> {
    let mut stmt = conn
        .prepare("SELECT type, name FROM sqlite_master ORDER BY type, name")
        .expect("prepare");
    let rows = stmt
        .query_map([], |row| Ok((row.get::<_, String>(0)?, row.get::<_, String>(1)?)))
        .expect("query");
    rows.map(|row| row.expect("row")).collect()
}

#[test]
fn migration_in_two_legs_gives_the_schema_of_the_direct_one() {
    let direct = memory_db(Some(LATEST_STABLE_SCHEMA));
    for via in [
        SchemaVersion::V0,
        SchemaVersion::V1,
        SchemaVersion::V2,
        SchemaVersion::V3,
    ] {
        let mut stepped = memory_db(Some(via));
        assert_eq!(get_user_version(&stepped.conn).expect("version"), via.to_u32());
        run_migrations(&mut stepped.conn, via.to_u32(), None).expect("second leg");
        assert_eq!(
            get_user_version(&stepped.conn).expect("version"),
            LATEST_STABLE_SCHEMA.to_u32()
        );
        assert_eq!(schema_of(&stepped.conn), schema_of(&direct.conn));
    }
}

#[test]
fn migration_past_the_latest_version_names_the_missing_script() {
    let mut conn = Connection::open_in_memory().expect("open");
    let error = migrate(&mut conn, 0, 5).expect_err("no script leads on from 3");
    assert_eq!(error.kind, ErrorKind::MissingScript(3));
    assert_eq!(error.msg, "Migration script for v3_to_v4 not found.");
    // Nothing was run.
    assert_eq!(get_user_version(&conn).expect("version"), 0);

    let error = migrate(&mut conn, 7, 9).expect_err("no script leads on from 7");
    assert_eq!(error.kind, ErrorKind::MissingScript(7));

    // A target that is not above the current version asks for nothing.
    assert!(migrate(&mut conn, 7, 3).is_ok());
    assert!(migrate(&mut conn, 4, 4).is_ok());
}

#[test]
fn failed_migration_leaves_version_and_schema() {
    let mut conn = Connection::open_in_memory().expect("open");
    // The second script renames a table that is not there.
    let error = migrate(&mut conn, 1, 2).expect_err("no history table");
    assert_eq!(error.kind, ErrorKind::Engine);
    assert!(error.msg.starts_with("Migration script failed: v1_to_v2. Error: "));
    assert_eq!(get_user_version(&conn).expect("version"), 0);
    assert!(schema_of(&conn).is_empty());
}

#[test]
fn update_of_unsaved_record_is_invalid_id() {
    let db = memory_db(None);
    let error = db.update(&sample_history(-1, "never saved")).expect_err("no id");
    assert_eq!(error.kind, ErrorKind::InvalidId);
    assert_eq!(error.msg, "Cannot update object with -1 ID, try save first.");
    assert_eq!(
        error.to_string(),
        "Encountered a database error: Cannot update object with -1 ID, try save first."
    );
}

#[test]
fn update_of_unknown_id_is_row_count_mismatch() {
    let db = memory_db(None);
    let error = db.update(&sample_history(42, "not there")).expect_err("no row");
    assert_eq!(error.kind, ErrorKind::RowCountMismatch);
    assert_eq!(error.msg, "Update affected 0 rows, expected 1 for ID 42");
}

#[test]
fn update_changes_the_fields_of_one_record_only() {
    let mut db = memory_db(None);
    let first = db.save(&sample_history(-1, "first")).expect("save");
    let second = db.save(&sample_history(-1, "second")).expect("save");
    let mut record = db.get(first).expect("get").expect("found");
    record.exit_code = 17;
    db.update(&record).expect("update");
    let after = db.get(first).expect("get").expect("found");
    assert_eq!(after, record);
    let other = db.get(second).expect("get").expect("found");
    assert_eq!(other.command, "second");
    assert_eq!(other.exit_code, 0);
}

#[test]
fn save_bulk_gives_distinct_ids_and_raises_the_total() {
    let mut db = memory_db(None);
    db.save(&sample_history(-1, "before")).expect("save");
    let before = db.get_history_total().expect("total");
    let records = vec![
        sample_history(-1, "a"),
        sample_history(-1, "b"),
        sample_history(-1, "c"),
        sample_history(-1, "d"),
    ];
    let ids = db.save_bulk(&records).expect("bulk");
    assert_eq!(ids.len(), 4);
    for (i, id) in ids.iter().enumerate() {
        assert!(*id > 0);
        assert!(!ids[..i].contains(id));
        assert_eq!(db.get(*id).expect("get").expect("found").command, records[i].command);
    }
    assert_eq!(db.get_history_total().expect("total"), before + 4);
    assert!(db.save_bulk(&[]).expect("empty bulk").is_empty());
}

#[test]
fn save_bulk_is_all_or_nothing() {
    let mut db = memory_db(None);
    db.conn
        .execute_batch(
            "CREATE TRIGGER refuse BEFORE INSERT ON history WHEN new.command = 'bad' \
             BEGIN SELECT RAISE(ABORT, 'refused'); END;",
        )
        .expect("trigger");
    let records = vec![sample_history(-1, "good"), sample_history(-1, "bad")];
    let error = db.save_bulk(&records).expect_err("second record is refused");
    assert_eq!(error.kind, ErrorKind::Engine);
    assert_eq!(db.get_history_total().expect("total"), 0);
}

#[test]
fn save_keeps_text_that_looks_like_sql() {
    let mut db = memory_db(None);
    let mut record = sample_history(-1, "'); DROP TABLE history; --");
    record.cwd = "/tmp/\"quoted\" :cwd".to_string();
    record.exit_code = -1;
    record.timestamp = -5;
    let id = db.save(&record).expect("save");
    let found = db.get(id).expect("get").expect("found");
    assert_eq!(found.command, record.command);
    assert_eq!(found.cwd, record.cwd);
    assert_eq!(found.exit_code, -1);
    assert_eq!(found.timestamp, -5);
    assert_eq!(db.get_history_total().expect("total"), 1);
}

#[test]
fn search_returns_the_most_recent_first() {
    let mut db = memory_db(None);
    for (timestamp, command) in [(300, "make third"), (100, "make first"), (200, "make second")] {
        let mut record = sample_history(-1, command);
        record.timestamp = timestamp;
        db.save(&record).expect("save");
    }
    let all = db.search("", HistoryFilters::default()).expect("search");
    let commands: Vec<&str> = all.iter().map(|h| h.command.as_str()).collect();
    assert_eq!(commands, vec!["make third", "make second", "make first"]);

    let newest = db
        .search("", HistoryFilters { limit: Some(1), ..Default::default() })
        .expect("search");
    assert_eq!(newest.len(), 1);
    assert_eq!(newest[0].timestamp, 300);

    let matched = db.search("make", HistoryFilters::default()).expect("search");
    let commands: Vec<&str> = matched.iter().map(|h| h.command.as_str()).collect();
    assert_eq!(commands, vec!["make third", "make second", "make first"]);
}

#[test]
fn search_modes_and_filters() {
    let mut db = memory_db(None);
    let mut record = sample_history(-1, "git commit --amend");
    record.cwd = "/repo".to_string();
    record.exit_code = 1;
    db.save(&record).expect("save");
    db.save(&sample_history(-1, "echo git commit")).expect("save");

    let prefix = HistoryFilters { mode: MatchMode::Prefix, ..Default::default() };
    let found = db.search("git com", prefix).expect("search");
    assert_eq!(found.len(), 1);
    assert_eq!(found[0].command, "git commit --amend");

    let fuzzy = db.search("com gi", HistoryFilters::default()).expect("search");
    assert_eq!(fuzzy.len(), 2);

    let filtered = db
        .search(
            "git",
            HistoryFilters {
                exit: Some(1),
                cwd: Some("/repo".to_string()),
                limit: Some(5),
                mode: MatchMode::Fuzzy,
            },
        )
        .expect("search");
    assert_eq!(filtered.len(), 1);
    assert_eq!(filtered[0].cwd, "/repo");

    // A quote in the query is text, not syntax.
    let quoted = db.search("\"", HistoryFilters::default()).expect("search");
    assert!(quoted.is_empty());
}

#[test]
fn full_text_index_follows_update_and_delete() {
    let mut db = memory_db(None);
    let id = db.save(&sample_history(-1, "rustc main.rs")).expect("save");
    assert_eq!(db.search("rustc", HistoryFilters::default()).expect("search").len(), 1);
    let mut record = db.get(id).expect("get").expect("found");
    record.command = "clang main.c".to_string();
    db.update(&record).expect("update");
    assert!(db.search("rustc", HistoryFilters::default()).expect("search").is_empty());
    assert_eq!(db.search("clang", HistoryFilters::default()).expect("search").len(), 1);
    db.delete(id).expect("delete");
    assert!(db.search("clang", HistoryFilters::default()).expect("search").is_empty());
}

#[test]
fn database_whose_version_cannot_be_read_is_not_used() {
    let conn = Connection::open_in_memory().expect("open");
    let unread = DatabaseError { kind: ErrorKind::Engine, msg: "file is not a database".to_string() };
    let error = match Sqlite::migrated(conn, Err(unread)) {
        Ok(_) => panic!("a database of unknown version was used"),
        Err(error) => error,
    };
    assert_eq!(error.kind, ErrorKind::Engine);
    assert_eq!(error.msg, "file is not a database");
}

#[test]
fn opened_database_is_migrated_from_its_version() {
    // A new database is brought to the latest version.
    let conn = Connection::open_in_memory().expect("open");
    let db = Sqlite::migrated(conn, Ok(0)).ok().expect("migrated from 0");
    assert_eq!(get_user_version(&db.conn).expect("version"), 3);
    assert_eq!(db.get_history_total().expect("total"), 0);

    // One at an older version is brought on from there.
    let older = memory_db(Some(SchemaVersion::V2));
    let version = get_user_version(&older.conn);
    let db = Sqlite::migrated(older.conn, version).ok().expect("migrated from 2");
    assert_eq!(get_user_version(&db.conn).expect("version"), 3);

    // One at the latest version or beyond is used as it is.
    let conn = Connection::open_in_memory().expect("open");
    set_user_version(&conn, 7).expect("set");
    let db = Sqlite::migrated(conn, Ok(7)).ok().expect("used as it is");
    assert_eq!(get_user_version(&db.conn).expect("version"), 7);
    assert!(schema_of(&db.conn).is_empty());

    // A migration that fails leaves no store: version 1 is claimed, the table is not there.
    let conn = Connection::open_in_memory().expect("open");
    let error = match Sqlite::migrated(conn, Ok(1)) {
        Ok(_) => panic!("a database that could not be migrated was used"),
        Err(error) => error,
    };
    assert_eq!(error.kind, ErrorKind::Engine);
}

#[test]
fn new_opens_or_fails_with_the_engine() {
    let db = Sqlite::new(":memory:").ok().expect("in memory");
    assert_eq!(get_user_version(&db.conn).expect("version"), 3);
    let error = match Sqlite::new("/no/such/directory/at/all/raven.db") {
        Ok(_) => panic!("opened a database in a directory that is not there"),
        Err(error) => error,
    };
    assert_eq!(error.kind, ErrorKind::Engine);
}

#[test]
fn version_statements() {
    assert_eq!(read_version_statement(), "PRAGMA user_version;");
    assert_eq!(write_version_statement(0), "PRAGMA user_version = 0;");
    assert_eq!(write_version_statement(4_294_967_295), "PRAGMA user_version = 4294967295;");
    let conn = Connection::open_in_memory().expect("open");
    assert_eq!(get_user_version(&conn).expect("version"), 0);
    set_user_version(&conn, 12).expect("set");
    assert_eq!(get_user_version(&conn).expect("version"), 12);
}
