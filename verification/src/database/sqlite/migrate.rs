//! The versions of the schema and the way from one to the next.
//!
//! The version of a database is a single integer that the engine keeps outside of the
//! tables. Version 0 is a database without schema. For each version below the latest one
//! script leads to the next version. A migration runs the scripts one after the other,
//! each in a transaction of its own together with the new version number, so that the
//! number on disk always tells which scripts have run.

use vstd::prelude::*;
use vstd::string::StringExecFns;
use super::bind::Binding;
use super::{engine, engine_error, engine_outcome};
use crate::database::{DatabaseError, ErrorKind};
use crate::text::{decimal, starts_with};
use crate::text::number::push_decimal;

verus! {

/// The versions of the database schema.
#[derive(Debug, PartialEq, Eq, PartialOrd, Ord, Clone, Copy)]
pub enum SchemaVersion {
    /// No schema at all.
    V0,
    /// The `history` table.
    V1,
    /// The `history` table with its constraints and indexes.
    V2,
    /// The full-text index on the commands and the triggers that keep it in step.
    V3,
}

/// The version that a database is brought to when it is opened.
pub const LATEST_STABLE_SCHEMA: SchemaVersion = SchemaVersion::V3;

/// The number of the latest version.
pub const LATEST_VERSION: u32 = 3;

/// Creates the `history` table.
pub const MIGRATION_V0_TO_V1: &'static str = "\
CREATE TABLE IF NOT EXISTS history (
    id INTEGER PRIMARY KEY AUTOINCREMENT,
    timestamp INTEGER NOT NULL,
    command TEXT NOT NULL,
    cwd TEXT NOT NULL,
    exit_code INTEGER NOT NULL
);
";

/// Rebuilds the `history` table with defaults for the working directory and the exit code,
/// and adds the indexes that the searches use.
pub const MIGRATION_V1_TO_V2: &'static str = "\
ALTER TABLE history RENAME TO history_old;
CREATE TABLE history (
    id INTEGER PRIMARY KEY AUTOINCREMENT,
    timestamp INTEGER NOT NULL,
    command TEXT NOT NULL,
    cwd TEXT NOT NULL DEFAULT 'unknown',
    exit_code INTEGER NOT NULL DEFAULT -1
);
INSERT INTO history (id, timestamp, command, cwd, exit_code)
    SELECT id, timestamp, command, cwd, exit_code FROM history_old;
DROP TABLE history_old;
CREATE INDEX IF NOT EXISTS history_timestamp ON history (timestamp);
CREATE INDEX IF NOT EXISTS history_cwd ON history (cwd);
";

/// Creates the full-text index on the commands, fills it from the rows that exist, and
/// creates the triggers that carry every insert, delete and update over to it.
pub const MIGRATION_V2_TO_V3: &'static str = "\
CREATE VIRTUAL TABLE history_fts USING fts5(command, content='history', content_rowid='id');
INSERT INTO history_fts (rowid, command) SELECT id, command FROM history;
CREATE TRIGGER history_after_insert AFTER INSERT ON history BEGIN
    INSERT INTO history_fts (rowid, command) VALUES (new.id, new.command);
END;
CREATE TRIGGER history_after_delete AFTER DELETE ON history BEGIN
    INSERT INTO history_fts (history_fts, rowid, command)
        VALUES ('delete', old.id, old.command);
END;
CREATE TRIGGER history_after_update AFTER UPDATE ON history BEGIN
    INSERT INTO history_fts (history_fts, rowid, command)
        VALUES ('delete', old.id, old.command);
    INSERT INTO history_fts (rowid, command) VALUES (new.id, new.command);
END;
";

impl SchemaVersion {
    /// The number of the version.
    pub open spec fn number(self) -> u32 {
        match self {
            SchemaVersion::V0 => 0,
            SchemaVersion::V1 => 1,
            SchemaVersion::V2 => 2,
            SchemaVersion::V3 => 3,
        }
    }

    /// The number of the version, as the database keeps it.
    pub fn to_u32(self) -> (n: u32)
        ensures
            n == self.number(),
            n <= LATEST_VERSION,
    {
        match self {
            SchemaVersion::V0 => 0,
            SchemaVersion::V1 => 1,
            SchemaVersion::V2 => 2,
            SchemaVersion::V3 => 3,
        }
    }
}

/// Whether a script leads on from `version`.
pub open spec fn has_script(version: u32) -> bool {
    version < LATEST_VERSION
}

/// The script that leads on from `version`.
pub open spec fn script_text(version: u32) -> Seq<char> {
    if version == 0 {
        MIGRATION_V0_TO_V1@
    } else if version == 1 {
        MIGRATION_V1_TO_V2@
    } else {
        MIGRATION_V2_TO_V3@
    }
}

/// The versions that a migration from `current` to `target` leaves one after the other:
/// every version from `current` on that is below `target`, and none where `current` is
/// not below `target`.
pub open spec fn steps(current: u32, target: u32) -> Seq<u32> {
    if current < target {
        Seq::new((target - current) as nat, |i: int| (current + i) as u32)
    } else {
        Seq::empty()
    }
}

/// The first version on the way from `current` to `target` that no script leads on from.
pub open spec fn first_missing(current: u32, target: u32) -> Option<u32> {
    if current < target && target > LATEST_VERSION {
        if current < LATEST_VERSION {
            Some(LATEST_VERSION)
        } else {
            Some(current)
        }
    } else {
        None
    }
}

/// The first missing version is on the way, lacks a script, and every version of the way
/// before it has one. Where none is missing, every version of the way has a script.
pub proof fn lemma_first_missing(current: u32, target: u32)
    ensures
        match first_missing(current, target) {
            Some(v) => {
                &&& current <= v < target
                &&& !has_script(v)
                &&& forall|w: u32| current <= w < v ==> has_script(w)
            },
            None => forall|w: u32| current <= w < target ==> has_script(w),
        },
{
}

/// A migration in two legs leaves the same versions, in the same order, as the direct one:
/// for `from <= via <= to`, going from `from` to `via` and then from `via` to `to` runs
/// the very scripts that going from `from` to `to` runs.
pub proof fn lemma_migration_in_two_legs(from: u32, via: u32, to: u32)
    requires
        from <= via <= to,
    ensures
        steps(from, via) + steps(via, to) == steps(from, to),
        first_missing(from, to) is None ==> first_missing(from, via) is None && first_missing(
            via,
            to,
        ) is None,
{
    assert(steps(from, via) + steps(via, to) =~= steps(from, to));
}

/// A migration to the version that the database already has leaves no version and lacks
/// no script.
pub proof fn lemma_migration_to_same_version(version: u32)
    ensures
        steps(version, version) == Seq::<u32>::empty(),
        first_missing(version, version) is None,
{
}

/// The script that leads on from `version`, if there is one.
pub fn migration_script(version: u32) -> (script: Option<&'static str>)
    ensures
        script is Some <==> has_script(version),
        script matches Some(text) ==> text@ == script_text(version),
{
    match version {
        0 => Some(MIGRATION_V0_TO_V1),
        1 => Some(MIGRATION_V1_TO_V2),
        2 => Some(MIGRATION_V2_TO_V3),
        _ => None,
    }
}

/// The name of the step that leads on from `version`.
pub open spec fn migration_name(version: u32) -> Seq<char> {
    "v"@ + decimal(version as nat) + "_to_v"@ + decimal((version + 1) as nat)
}

/// The error for a version that no script leads on from.
pub fn missing_script(version: u32) -> (error: DatabaseError)
    requires
        version < u32::MAX,
    ensures
        error.kind == ErrorKind::MissingScript(version),
        error.msg@ == "Migration script for "@ + migration_name(version) + " not found."@,
{
    let mut msg = String::new();
    msg.append("Migration script for ");
    msg.append("v");
    push_decimal(&mut msg, version as u64);
    msg.append("_to_v");
    push_decimal(&mut msg, (version + 1) as u64);
    msg.append(" not found.");
    assert(msg@ =~= "Migration script for "@ + migration_name(version) + " not found."@);
    DatabaseError { kind: ErrorKind::MissingScript(version), msg }
}

/// The versions to leave, one after the other, on the way from `current` to `target`; or
/// the error for the first of them that no script leads on from. Nothing is run where
/// one is missing.
pub fn migration_plan(current: u32, target: u32) -> (plan: Result<Vec<u32>, DatabaseError>)
    ensures
        match first_missing(current, target) {
            Some(v) => plan matches Err(e) && e.kind == ErrorKind::MissingScript(v),
            None => plan matches Ok(versions) && versions@ == steps(current, target),
        },
{
    let mut versions: Vec<u32> = Vec::new();
    if current >= target {
        return Ok(versions);
    }
    let mut version = current;
    while version < target
        invariant
            current <= version <= target,
            versions@ == steps(current, version),
            forall|w: u32| current <= w < version ==> has_script(w),
        decreases target - version,
    {
        if migration_script(version).is_none() {
            proof {
                if version > current {
                    assert(has_script((version - 1) as u32));
                }
            }
            return Err(missing_script(version));
        }
        versions.push(version);
        version = version + 1;
        assert(versions@ =~= steps(current, version));
    }
    proof {
        assert(has_script((target - 1) as u32));
    }
    Ok(versions)
}

/// The statement that reads the version of the schema.
pub open spec fn read_version_sql() -> Seq<char> {
    "PRAGMA user_version;"@
}

/// The statement that sets the version of the schema.
pub open spec fn write_version_sql(version: u32) -> Seq<char> {
    "PRAGMA user_version = "@ + decimal(version as nat) + ";"@
}

/// What the version number that the engine holds says: a number that fits is the version,
/// any other is an error.
pub fn version_of(number: i64) -> (version: Result<u32, DatabaseError>)
    ensures
        0 <= number <= u32::MAX ==> version == Ok::<u32, DatabaseError>(number as u32),
        !(0 <= number <= u32::MAX) ==> (version matches Err(e) && e.kind == ErrorKind::Engine),
{
    if 0 <= number && number <= 0xffff_ffff {
        Ok(number as u32)
    } else {
        let mut msg = String::new();
        msg.append("The schema version of the database is out of range.");
        Err(DatabaseError { kind: ErrorKind::Engine, msg })
    }
}

/// The statement that reads the version of the schema.
pub fn read_version_statement() -> (sql: &'static str)
    ensures
        sql@ == read_version_sql(),
{
    "PRAGMA user_version;"
}

/// The statement that sets the version of the schema to `version`.
pub fn write_version_statement(version: u32) -> (sql: String)
    ensures
        sql@ == write_version_sql(version),
{
    let mut sql = String::new();
    sql.append("PRAGMA user_version = ");
    push_decimal(&mut sql, version as u64);
    sql.append(";");
    assert(sql@ =~= write_version_sql(version));
    sql
}

/// Reads the version of the schema from the database.
pub fn get_user_version(conn: &rusqlite::Connection) -> (version: Result<u32, DatabaseError>)
    ensures
        version matches Err(e) ==> e.kind == ErrorKind::Engine,
{
    match engine_outcome(engine::read_integer(conn, read_version_statement())) {
        Ok(number) => version_of(number),
        Err(e) => Err(e),
    }
}

/// Writes the version of the schema to the database.
pub fn set_user_version(conn: &rusqlite::Connection, version: u32) -> (done: Result<
    (),
    DatabaseError,
>)
    ensures
        done matches Err(e) ==> e.kind == ErrorKind::Engine,
{
    let sql = write_version_statement(version);
    let none: Vec<Binding> = Vec::new();
    match engine_outcome(engine::run(conn, sql.as_str(), &none)) {
        Ok(_) => Ok(()),
        Err(e) => Err(e),
    }
}

/// The error for a script that the engine refused.
pub fn script_failed(version: u32, error: &rusqlite::Error) -> (converted: DatabaseError)
    requires
        version < u32::MAX,
    ensures
        converted.kind == ErrorKind::Engine,
        starts_with(
            converted.msg@,
            "Migration script failed: "@ + migration_name(version) + ". Error: "@,
        ),
{
    let mut msg = String::new();
    msg.append("Migration script failed: ");
    msg.append("v");
    push_decimal(&mut msg, version as u64);
    msg.append("_to_v");
    push_decimal(&mut msg, (version + 1) as u64);
    msg.append(". Error: ");
    let ghost head = msg@;
    msg.append(engine::message_of(error).as_str());
    proof {
        assert(head =~= "Migration script failed: "@ + migration_name(version) + ". Error: "@);
        assert(msg@.take(head.len() as int) =~= head);
    }
    DatabaseError { kind: ErrorKind::Engine, msg }
}

/// Leaves `version` for the next one: runs the script and writes the new version number,
/// both in one transaction. Where either fails, nothing of the step stays. Where no script
/// leads on from `version`, nothing is run.
pub fn apply_migration(conn: &mut rusqlite::Connection, version: u32) -> (done: Result<
    (),
    DatabaseError,
>)
    requires
        version < u32::MAX,
    ensures
        !has_script(version) ==> (done matches Err(e) && e.kind == ErrorKind::MissingScript(
            version,
        )),
        has_script(version) ==> (done matches Err(e) ==> e.kind == ErrorKind::Engine),
{
    let script = match migration_script(version) {
        Some(script) => script,
        None => {
            return Err(missing_script(version));
        },
    };
    let mut tx = match engine::begin(conn) {
        Ok(tx) => tx,
        Err(e) => {
            return Err(engine_error(&e));
        },
    };
    engine::rollback_on_drop(&mut tx);
    match engine::execute_batch(engine::connection_of(&tx), script) {
        Ok(()) => {},
        Err(e) => {
            return Err(script_failed(version, &e));
        },
    }
    match set_user_version(engine::connection_of(&tx), version + 1) {
        Ok(()) => {},
        Err(e) => {
            return Err(e);
        },
    }
    engine_outcome(engine::commit(tx))
}

/// Brings the schema from the version `current` to the version `target`, one version at
/// a time and through every version between the two.
///
/// Where `current` is not below `target` nothing is run and the result is `Ok`. Where a
/// script is missing on the way nothing is run either, and the error names the first
/// version that lacks one. Else the scripts run in order until one fails; the versions left
/// before it stay left.
pub fn migrate(conn: &mut rusqlite::Connection, current: u32, target: u32) -> (done: Result<
    (),
    DatabaseError,
>)
    ensures
        current >= target ==> done is Ok,
        first_missing(current, target) matches Some(v) ==> (done matches Err(e) && e.kind
            == ErrorKind::MissingScript(v)),
        first_missing(current, target) is None ==> (done matches Err(e) ==> e.kind
            == ErrorKind::Engine),
{
    let versions = match migration_plan(current, target) {
        Ok(versions) => versions,
        Err(e) => {
            return Err(e);
        },
    };
    let mut i: usize = 0;
    while i < versions.len()
        invariant
            i <= versions.len(),
            first_missing(current, target) is None,
            versions@ == steps(current, target),
        decreases versions.len() - i,
    {
        proof {
            lemma_first_missing(current, target);
        }
        match apply_migration(conn, versions[i]) {
            Ok(()) => {},
            Err(e) => {
                return Err(e);
            },
        }
        i += 1;
    }
    Ok(())
}

/// Applies the migrations that bring the schema from `current_version` to the target, or
/// to the latest version where no target is given.
pub fn run_migrations(
    conn: &mut rusqlite::Connection,
    current_version: u32,
    target_version: Option<SchemaVersion>,
) -> (done: Result<(), DatabaseError>)
    ensures
        current_version >= target_number(target_version) ==> done is Ok,
        done matches Err(e) ==> e.kind == ErrorKind::Engine,
{
    let target = match target_version {
        Some(target) => target.to_u32(),
        None => LATEST_STABLE_SCHEMA.to_u32(),
    };
    migrate(conn, current_version, target)
}

/// The number of the target of a migration: that of the version given, or of the latest.
pub open spec fn target_number(target_version: Option<SchemaVersion>) -> u32 {
    match target_version {
        Some(target) => target.number(),
        None => LATEST_STABLE_SCHEMA.number(),
    }
}

} // verus!
