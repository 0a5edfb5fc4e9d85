use sqlez::connection::Connection;
use sqlez::error::{error_to_result, SqlError, STATUS_OK, STATUS_ROW};
use sqlez::migrations::Migration;

#[test]
fn status_codes_map_to_results() {
    assert!(error_to_result(STATUS_OK, "ok".to_string()).is_ok());
    assert!(error_to_result(STATUS_ROW, "row".to_string()).is_ok());
    match error_to_result(14, "unable to open database file".to_string()) {
        Err(SqlError::Execution { code, message }) => {
            assert_eq!(code, 14);
            assert_eq!(message, "unable to open database file");
        }
        other => panic!("expected an execution failure, got {:?}", other),
    }
}

#[test]
fn migration_runs_each_step_once() {
    let connection = Connection::open_memory("migration_runs_each_step_once");
    let migration = Migration::new(
        "books",
        &[
            "CREATE TABLE books (title TEXT);",
            "INSERT INTO books (title) VALUES ('one');",
        ],
    );

    migration.run(&connection).unwrap();
    // The second run must skip both recorded steps: no duplicate-table
    // error, and no second copy of the seeded row.
    migration.run(&connection).unwrap();

    let count = connection
        .prepare("SELECT count(*) FROM books")
        .unwrap()
        .row::<i64>()
        .unwrap();
    assert_eq!(count, 1);
}

#[test]
fn failed_migration_step_keeps_recorded_progress() {
    let connection = Connection::open_memory("failed_migration_step");
    let broken = Migration::new(
        "broken",
        &["CREATE TABLE solid (a TEXT);", "THIS IS NOT SQL;"],
    );

    let err = broken.run(&connection).unwrap_err();
    assert!(matches!(err, SqlError::Migration { .. }));

    // The completed first step stays applied: the table exists, and a retry
    // skips it (failing again only on the broken step).
    connection
        .exec("INSERT INTO solid (a) VALUES ('kept');")
        .unwrap();
    let err = broken.run(&connection).unwrap_err();
    assert!(matches!(err, SqlError::Migration { .. }));
}

#[test]
fn backup_copies_are_independent() {
    let source = Connection::open_memory("backup_independent_source");
    source.exec("CREATE TABLE items (name TEXT);").unwrap();
    source
        .exec("INSERT INTO items (name) VALUES ('before');")
        .unwrap();

    let mut destination = Connection::open_memory("backup_independent_dest");
    source.backup_main(&mut destination).unwrap();

    // A row inserted into the source after the backup must not appear in
    // the destination.
    source
        .exec("INSERT INTO items (name) VALUES ('after');")
        .unwrap();

    let copied = destination
        .prepare("SELECT name FROM items")
        .unwrap()
        .rows::<String>()
        .unwrap();
    assert_eq!(copied, vec!["before".to_string()]);

    let originals = source
        .prepare("SELECT name FROM items")
        .unwrap()
        .rows::<String>()
        .unwrap();
    assert_eq!(originals.len(), 2);
}

#[test]
fn insert_returns_the_new_row_identifier() {
    let connection = Connection::open_memory("insert_returns_row_id");
    connection.exec("CREATE TABLE notes (body TEXT);").unwrap();
    connection
        .exec("INSERT INTO notes (body) VALUES ('first');")
        .unwrap();
    let id = connection
        .insert("INSERT INTO notes (body) VALUES ('second');")
        .unwrap();

    let mut select = connection
        .prepare("SELECT body FROM notes WHERE rowid = ?")
        .unwrap();
    select.with_bindings(id).unwrap();
    assert_eq!(select.row::<String>().unwrap(), "second");
}

#[test]
fn open_file_falls_back_to_memory() {
    // An unwritable location: the file-backed open fails, and a usable
    // in-memory connection is handed back instead of an error.
    let connection = Connection::open_file("/nonexistent-root-dir/deeper/still/database.db");
    assert!(!connection.persistent());

    connection.exec("CREATE TABLE t (a TEXT);").unwrap();
    connection.exec("INSERT INTO t (a) VALUES ('works');").unwrap();
    let read = connection
        .prepare("SELECT a FROM t")
        .unwrap()
        .row::<String>()
        .unwrap();
    assert_eq!(read, "works");
}

#[test]
fn sql_with_a_nul_character_is_rejected_before_the_engine() {
    let connection = Connection::open_memory("nul_rejected");

    // The engine would stop parsing at the NUL; the text is rejected whole,
    // and no statement before the NUL runs either.
    let result = connection.exec("CREATE TABLE t (c TEXT);\0DROP TABLE t;");
    assert!(matches!(result, Err(SqlError::Execution { .. })));
    assert!(connection.prepare("SELECT c FROM t").is_err());

    let result = connection.prepare("SELECT 1;\0");
    assert!(matches!(result, Err(SqlError::Execution { .. })));

    let result = connection.insert("INSERT INTO missing VALUES (1);\0");
    assert!(matches!(result, Err(SqlError::Execution { .. })));
}

#[test]
fn backup_into_a_locked_destination_reports_an_error() {
    let source = Connection::open_memory("backup_locked_source");
    source.exec("CREATE TABLE t (a TEXT);").unwrap();

    let mut destination = Connection::open_memory("backup_locked_dest");
    destination.exec("CREATE TABLE held (x TEXT);").unwrap();

    // A second connection to the same shared store holds a write
    // transaction, so the one-pass copy cannot finish and must report an
    // error instead of retrying forever.
    let holder = Connection::open_memory("backup_locked_dest");
    holder.exec("BEGIN IMMEDIATE;").unwrap();
    holder
        .exec("INSERT INTO held (x) VALUES ('lock');")
        .unwrap();

    let result = source.backup_main(&mut destination);
    assert!(matches!(result, Err(SqlError::Execution { .. })));

    holder.exec("COMMIT;").unwrap();
    source.backup_main(&mut destination).unwrap();
}

#[test]
fn open_memory_is_not_persistent_and_open_file_can_be() {
    let memory = Connection::open_memory("persistence_flag");
    assert!(!memory.persistent());
}
