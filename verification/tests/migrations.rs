use lancelot::failure::{Failure, MigrateError};
use lancelot::migrations::{migrate, registered, Migration000};
use lancelot::migrator::{
    acknowledged, bookkeeping, failing, schema_version, Migration, Migrator,
};
use rusqlite::Connection;

/// A migration that runs a script.
struct Script {
    sql: &'static str,
}

impl Migration for Script {
    fn up(&self, db: &Connection) -> Result<(), Failure> {
        match db.execute_batch(self.sql) {
            Ok(()) => Ok(()),
            Err(error) => Err(Failure { message: error.to_string() }),
        }
    }
}

const CREATE_TODOS: &str = "CREATE TABLE todos (id INTEGER NOT NULL UNIQUE, title TEXT NOT NULL, PRIMARY KEY(id));";
const ADD_SCHEDULED: &str = "ALTER TABLE todos ADD COLUMN scheduled INTEGER;";
const ADD_DEADLINE: &str = "ALTER TABLE todos ADD COLUMN deadline INTEGER;";
const INVALID: &str = "CREATE TABLE half_done (x INTEGER); THIS IS NOT SQL;";

fn scripts(list: &[&'static str]) -> Migrator<Script> {
    let mut migrator = Migrator::new();
    for (ordinal, sql) in list.iter().enumerate() {
        migrator.register(ordinal as i64, Script { sql });
    }
    migrator
}

fn columns(db: &Connection, table: &str) -> Vec<String> {
    let mut statement = db.prepare(&format!("PRAGMA table_info({})", table)).unwrap();
    let names = statement.query_map([], |row| row.get::<_, String>(1)).unwrap();
    names.map(|name| name.unwrap()).collect()
}

fn has_table(db: &Connection, table: &str) -> bool {
    let count: i64 = db
        .query_row(
            "SELECT COUNT(*) FROM sqlite_master WHERE type = 'table' AND name = ?1",
            [table],
            |row| row.get(0),
        )
        .unwrap();
    count == 1
}

#[test]
fn three_migrations_run_once_then_again() {
    let db = Connection::open_in_memory().unwrap();
    let migrator = scripts(&[CREATE_TODOS, ADD_SCHEDULED, ADD_DEADLINE]);
    assert!(migrator.migrate(&db).is_ok());
    assert_eq!(schema_version(&db).unwrap(), 2);
    assert_eq!(columns(&db, "todos"), vec!["id", "title", "scheduled", "deadline"]);
    assert!(migrator.migrate(&db).is_ok());
    assert_eq!(schema_version(&db).unwrap(), 2);
    assert_eq!(columns(&db, "todos"), vec!["id", "title", "scheduled", "deadline"]);
}

#[test]
fn second_migration_invalid_keeps_first() {
    let db = Connection::open_in_memory().unwrap();
    let migrator = scripts(&[CREATE_TODOS, INVALID]);
    match migrator.migrate(&db) {
        Err(MigrateError::Migration { ordinal, cause }) => {
            assert_eq!(ordinal, 1);
            assert!(!cause.message.is_empty());
        },
        other => panic!("unexpected result: {:?}", other),
    }
    assert_eq!(schema_version(&db).unwrap(), 0);
    assert!(has_table(&db, "todos"));
    assert!(!has_table(&db, "half_done"));
    assert!(db.is_autocommit());
}

#[test]
fn first_migration_invalid_leaves_sentinel() {
    let db = Connection::open_in_memory().unwrap();
    let migrator = scripts(&[INVALID, CREATE_TODOS]);
    let error = migrator.migrate(&db).unwrap_err();
    assert_eq!(error.ordinal(), Some(0));
    assert!(matches!(error, MigrateError::Migration { ordinal: 0, .. }));
    assert_eq!(schema_version(&db).unwrap(), -1);
    assert!(!has_table(&db, "half_done"));
    assert!(!has_table(&db, "todos"));
}

#[test]
fn failed_run_repeats_identically() {
    let db = Connection::open_in_memory().unwrap();
    let migrator = scripts(&[CREATE_TODOS, INVALID, ADD_DEADLINE]);
    let first = migrator.migrate(&db).unwrap_err();
    let version = schema_version(&db).unwrap();
    let second = migrator.migrate(&db).unwrap_err();
    assert_eq!(first.ordinal(), Some(1));
    assert_eq!(second.ordinal(), Some(1));
    assert_eq!(version, 0);
    assert_eq!(schema_version(&db).unwrap(), 0);
    assert_eq!(columns(&db, "todos"), vec!["id", "title"]);
}

#[test]
fn corrected_migration_resumes_after_failure() {
    let db = Connection::open_in_memory().unwrap();
    assert!(scripts(&[CREATE_TODOS, INVALID, ADD_DEADLINE]).migrate(&db).is_err());
    assert_eq!(schema_version(&db).unwrap(), 0);
    assert!(scripts(&[CREATE_TODOS, ADD_SCHEDULED, ADD_DEADLINE]).migrate(&db).is_ok());
    assert_eq!(schema_version(&db).unwrap(), 2);
    assert_eq!(columns(&db, "todos"), vec!["id", "title", "scheduled", "deadline"]);
}

#[test]
fn version_equals_number_applied_minus_one() {
    let all = [CREATE_TODOS, ADD_SCHEDULED, ADD_DEADLINE];
    for n in 0..all.len() {
        let db = Connection::open_in_memory().unwrap();
        assert!(scripts(&all[..=n]).migrate(&db).is_ok());
        assert_eq!(schema_version(&db).unwrap(), n as i64);
        assert_eq!(columns(&db, "todos").len(), 2 + n);
    }
}

#[test]
fn longer_list_applies_only_the_new_ones() {
    let db = Connection::open_in_memory().unwrap();
    assert!(scripts(&[CREATE_TODOS]).migrate(&db).is_ok());
    assert_eq!(schema_version(&db).unwrap(), 0);
    assert!(scripts(&[CREATE_TODOS, ADD_SCHEDULED]).migrate(&db).is_ok());
    assert_eq!(schema_version(&db).unwrap(), 1);
    assert_eq!(columns(&db, "todos"), vec!["id", "title", "scheduled"]);
}

#[test]
fn shorter_list_on_newer_database_is_a_no_op() {
    let db = Connection::open_in_memory().unwrap();
    assert!(scripts(&[CREATE_TODOS, ADD_SCHEDULED]).migrate(&db).is_ok());
    assert!(scripts(&[CREATE_TODOS]).migrate(&db).is_ok());
    assert_eq!(schema_version(&db).unwrap(), 1);
}

#[test]
fn empty_sequence_is_a_no_op_success() {
    let db = Connection::open_in_memory().unwrap();
    let migrator: Migrator<Script> = Migrator::new();
    assert_eq!(migrator.len(), 0);
    assert!(migrator.migrate(&db).is_ok());
    assert_eq!(schema_version(&db).unwrap(), -1);
}

#[test]
fn fresh_database_reads_sentinel() {
    let db = Connection::open_in_memory().unwrap();
    assert_eq!(schema_version(&db).unwrap(), -1);
    assert_eq!(schema_version(&db).unwrap(), -1);
}

#[test]
fn duplicate_ordinals_are_refused_before_the_database_is_touched() {
    let db = Connection::open_in_memory().unwrap();
    let mut migrator = Migrator::new();
    migrator.register(0, Script { sql: CREATE_TODOS });
    migrator.register(0, Script { sql: ADD_SCHEDULED });
    match migrator.migrate(&db) {
        Err(MigrateError::Config { position, ordinal }) => {
            assert_eq!(position, 1);
            assert_eq!(ordinal, 0);
        },
        other => panic!("unexpected result: {:?}", other),
    }
    assert!(!has_table(&db, "schema_version"));
    assert!(!has_table(&db, "todos"));
}

#[test]
fn gap_in_ordinals_is_refused() {
    let db = Connection::open_in_memory().unwrap();
    let mut migrator = Migrator::new();
    migrator.register(0, Script { sql: CREATE_TODOS });
    migrator.register(2, Script { sql: ADD_SCHEDULED });
    let error = migrator.migrate(&db).unwrap_err();
    assert!(matches!(error, MigrateError::Config { position: 1, ordinal: 2 }));
    assert_eq!(error.ordinal(), Some(2));
    assert!(!has_table(&db, "todos"));
}

#[test]
fn ordinals_not_starting_at_zero_are_refused() {
    let db = Connection::open_in_memory().unwrap();
    let mut migrator = Migrator::new();
    migrator.register(1, Script { sql: CREATE_TODOS });
    assert!(matches!(migrator.migrate(&db), Err(MigrateError::Config { position: 0, ordinal: 1 })));
}

#[test]
fn unusable_bookkeeping_is_a_bookkeeping_error() {
    let db = Connection::open_in_memory().unwrap();
    db.execute_batch("CREATE TABLE schema_version (note TEXT);").unwrap();
    let error = scripts(&[CREATE_TODOS]).migrate(&db).unwrap_err();
    assert!(matches!(error, MigrateError::Bookkeeping(_)));
    assert_eq!(error.ordinal(), None);
    assert!(!has_table(&db, "todos"));
    assert!(matches!(schema_version(&db), Err(MigrateError::Bookkeeping(_))));
}

#[test]
fn migrations_of_different_types_share_a_migrator() {
    let db = Connection::open_in_memory().unwrap();
    let mut migrator: Migrator<Box<dyn Migration>> = Migrator::new();
    migrator.register(0, Box::new(Migration000 {}));
    migrator.register(1, Box::new(Script { sql: "ALTER TABLE todos ADD COLUMN note TEXT;" }));
    assert_eq!(migrator.ordinals(), vec![0, 1]);
    assert!(migrator.migrate(&db).is_ok());
    assert_eq!(schema_version(&db).unwrap(), 1);
    assert_eq!(
        columns(&db, "todos"),
        vec!["id", "title", "path", "scheduled", "deadline", "opened", "closed", "note"]
    );
}

#[test]
fn tracker_schema_is_migration_zero() {
    let db = Connection::open_in_memory().unwrap();
    assert_eq!(registered().ordinals(), vec![0]);
    assert!(migrate(&db).is_ok());
    assert_eq!(schema_version(&db).unwrap(), 0);
    assert_eq!(
        columns(&db, "todos"),
        vec!["id", "title", "path", "scheduled", "deadline", "opened", "closed"]
    );
    assert!(migrate(&db).is_ok());
    assert_eq!(schema_version(&db).unwrap(), 0);
}

#[test]
fn migration_zero_is_not_safe_to_repeat_by_itself() {
    let db = Connection::open_in_memory().unwrap();
    assert!(Migration000 {}.up(&db).is_ok());
    assert!(Migration000 {}.up(&db).is_err());
}

#[test]
fn second_connection_sees_what_the_first_migrated() {
    let uri = "file:lancelot_shared_migrations?mode=memory&cache=shared";
    let first = Connection::open(uri).unwrap();
    assert!(scripts(&[CREATE_TODOS, ADD_SCHEDULED]).migrate(&first).is_ok());
    let second = Connection::open(uri).unwrap();
    assert_eq!(schema_version(&second).unwrap(), 1);
    assert!(scripts(&[CREATE_TODOS, ADD_SCHEDULED, ADD_DEADLINE]).migrate(&second).is_ok());
    assert_eq!(schema_version(&first).unwrap(), 2);
    assert_eq!(columns(&first, "todos"), vec!["id", "title", "scheduled", "deadline"]);
}

#[test]
fn driver_error_becomes_a_failure_with_its_text() {
    let kept: Result<i64, Failure> = failing(Ok(7));
    assert_eq!(kept.unwrap(), 7);
    let failed: Result<i64, Failure> = failing(Err(rusqlite::Error::QueryReturnedNoRows));
    assert_eq!(failed.unwrap_err().message, "Query returned no rows");
    let db = Connection::open_in_memory().unwrap();
    let error = db.execute_batch("SELECT * FROM missing_table").unwrap_err();
    let text = error.to_string();
    assert!(text.contains("missing_table"));
    assert_eq!(failing::<()>(Err(error)).unwrap_err().message, text);
}

#[test]
fn acknowledgement_drops_the_value_and_keeps_the_failure() {
    assert_eq!(acknowledged(Ok(())).unwrap(), 0);
    assert_eq!(acknowledged(Ok(17usize)).unwrap(), 0);
    let reply = acknowledged::<usize>(Err(Failure { message: "locked".to_string() }));
    assert_eq!(reply.unwrap_err().message, "locked");
}

#[test]
fn bookkeeping_keeps_the_value_and_names_the_failure() {
    assert_eq!(bookkeeping(Ok(-1)).unwrap(), -1);
    assert_eq!(bookkeeping(Ok(4)).unwrap(), 4);
    match bookkeeping(Err(Failure { message: "no such table".to_string() })) {
        Err(MigrateError::Bookkeeping(cause)) => assert_eq!(cause.message, "no such table"),
        other => panic!("unexpected result: {:?}", other),
    }
}

#[test]
fn recorded_version_follows_each_successful_run() {
    let db = Connection::open_in_memory().unwrap();
    assert_eq!(schema_version(&db).unwrap(), -1);
    assert!(scripts(&[CREATE_TODOS]).migrate(&db).is_ok());
    assert_eq!(schema_version(&db).unwrap(), 0);
    assert!(scripts(&[CREATE_TODOS, ADD_SCHEDULED, ADD_DEADLINE]).migrate(&db).is_ok());
    assert_eq!(schema_version(&db).unwrap(), 2);
}
