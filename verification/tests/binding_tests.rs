use sqlez::connection::Connection;
use sqlez::error::SqlError;
use sqlez::statement::decode_single_row;
use sqlez::value::SqlValue;

#[test]
fn a_missing_row_is_exactly_the_no_rows_failure() {
    let result = decode_single_row::<String>(None);
    assert!(matches!(result, Err(SqlError::NoRows)));

    let cells = vec![SqlValue::Text("present".to_string())];
    assert_eq!(decode_single_row::<String>(Some(cells)).unwrap(), "present");

    let cells = vec![SqlValue::Text("not bytes".to_string())];
    let result = decode_single_row::<Vec<u8>>(Some(cells));
    assert!(matches!(result, Err(SqlError::Decoding { .. })));
}

#[test]
fn slot_indices_beyond_the_engine_range_are_rejected() {
    let connection = Connection::open_memory("huge_slot_index");
    connection.exec("CREATE TABLE t (c TEXT);").unwrap();
    let mut insert = connection
        .prepare("INSERT INTO t (c) VALUES (?);")
        .unwrap();
    // At the foreign boundary the slot index is 32-bit; this index would
    // wrap around to slot 1 if it were handed through.
    let huge: usize = (u32::MAX as usize) + 2;
    let result = insert.bind_text(huge, "never bound");
    assert!(matches!(result, Err(SqlError::Binding { .. })));
}

#[test]
fn text_never_decodes_as_blob() {
    let connection = Connection::open_memory("text_never_decodes_as_blob");
    connection.exec("CREATE TABLE t (c TEXT);").unwrap();
    connection
        .exec("INSERT INTO t (c) VALUES ('plainly text');")
        .unwrap();

    let result = connection
        .prepare("SELECT c FROM t")
        .unwrap()
        .row::<Vec<u8>>();
    assert!(matches!(result, Err(SqlError::Decoding { .. })));
}

#[test]
fn blob_never_decodes_as_text() {
    let connection = Connection::open_memory("blob_never_decodes_as_text");
    connection.exec("CREATE TABLE t (c BLOB);").unwrap();
    let mut insert = connection
        .prepare("INSERT INTO t (c) VALUES (?);")
        .unwrap();
    insert.bind_blob(1, &[1, 2, 3]).unwrap();
    insert.exec().unwrap();

    let result = connection.prepare("SELECT c FROM t").unwrap().row::<String>();
    assert!(matches!(result, Err(SqlError::Decoding { .. })));
}

#[test]
fn optional_values_round_trip_through_null() {
    let connection = Connection::open_memory("optional_values");
    connection.exec("CREATE TABLE t (c TEXT);").unwrap();

    let mut insert = connection
        .prepare("INSERT INTO t (c) VALUES (?);")
        .unwrap();
    insert.with_bindings(None::<String>).unwrap();
    insert.exec().unwrap();
    insert
        .with_bindings(Some("present".to_string()))
        .unwrap();
    insert.exec().unwrap();

    let read = connection
        .prepare("SELECT c FROM t")
        .unwrap()
        .rows::<Option<String>>()
        .unwrap();
    assert_eq!(read, vec![None, Some("present".to_string())]);
}

#[test]
fn direct_slot_binds_write_the_named_kinds() {
    let connection = Connection::open_memory("direct_slot_binds");
    connection
        .exec("CREATE TABLE t (a INTEGER, b TEXT);")
        .unwrap();

    let mut insert = connection
        .prepare("INSERT INTO t (a, b) VALUES (?, ?);")
        .unwrap();
    insert.bind_int(1, 99).unwrap();
    insert.bind_null(2).unwrap();
    insert.exec().unwrap();

    let read = connection
        .prepare("SELECT a, b FROM t")
        .unwrap()
        .row::<(i64, Option<String>)>()
        .unwrap();
    assert_eq!(read, (99, None));
}

#[test]
fn single_row_fetch_on_empty_result_reports_no_rows() {
    let connection = Connection::open_memory("no_rows");
    connection.exec("CREATE TABLE t (c TEXT);").unwrap();
    let result = connection.prepare("SELECT c FROM t").unwrap().row::<String>();
    assert!(matches!(result, Err(SqlError::NoRows)));
}

#[test]
fn binding_past_the_parameter_count_is_an_error() {
    let connection = Connection::open_memory("binding_past_count");
    connection.exec("CREATE TABLE t (c TEXT);").unwrap();
    let mut insert = connection
        .prepare("INSERT INTO t (c) VALUES (?);")
        .unwrap();
    let result = insert.bind_text(3, "nowhere to go");
    assert!(matches!(result, Err(SqlError::Binding { .. })));
}

#[test]
fn decoding_past_the_column_count_is_an_error() {
    let connection = Connection::open_memory("decoding_past_count");
    connection.exec("CREATE TABLE t (c TEXT);").unwrap();
    connection.exec("INSERT INTO t (c) VALUES ('only one');").unwrap();
    let result = connection
        .prepare("SELECT c FROM t")
        .unwrap()
        .row::<(String, String)>();
    assert!(matches!(result, Err(SqlError::Decoding { .. })));
}

#[test]
fn executing_invalid_sql_reports_an_execution_error() {
    let connection = Connection::open_memory("invalid_sql");
    let result = connection.exec("NOT EVEN CLOSE TO SQL;");
    match result {
        Err(SqlError::Execution { code, message }) => {
            assert_ne!(code, 0);
            assert!(!message.is_empty());
        }
        other => panic!("expected an execution failure, got {:?}", other),
    }
}

#[test]
fn integers_round_trip_at_the_extremes() {
    let connection = Connection::open_memory("integer_extremes");
    connection.exec("CREATE TABLE t (c INTEGER);").unwrap();
    let mut insert = connection
        .prepare("INSERT INTO t (c) VALUES (?);")
        .unwrap();
    insert.with_bindings(i64::MIN).unwrap();
    insert.exec().unwrap();
    insert.with_bindings(i64::MAX).unwrap();
    insert.exec().unwrap();

    let read = connection
        .prepare("SELECT c FROM t")
        .unwrap()
        .rows::<i64>()
        .unwrap();
    assert_eq!(read, vec![i64::MIN, i64::MAX]);
}

#[test]
fn pairs_bind_at_consecutive_slots() {
    let connection = Connection::open_memory("pairs_bind");
    connection.exec("CREATE TABLE t (k TEXT, v TEXT);").unwrap();
    let mut insert = connection
        .prepare("INSERT INTO t (k, v) VALUES (?, ?);")
        .unwrap();
    insert
        .with_bindings(("key".to_string(), "value".to_string()))
        .unwrap();
    insert.exec().unwrap();

    let read = connection
        .prepare("SELECT k, v FROM t")
        .unwrap()
        .row::<(String, String)>()
        .unwrap();
    assert_eq!(read, ("key".to_string(), "value".to_string()));
}

#[test]
fn four_element_tuples_round_trip() {
    let connection = Connection::open_memory("four_element_tuples");
    connection
        .exec("CREATE TABLE t (a TEXT, b INTEGER, c BLOB, d TEXT);")
        .unwrap();

    let full = ("alpha".to_string(), -7i64, vec![9u8, 8, 7], Some("beta".to_string()));
    let partial = ("gamma".to_string(), 11i64, vec![1u8], None::<String>);

    let mut insert = connection
        .prepare("INSERT INTO t (a, b, c, d) VALUES (?, ?, ?, ?)")
        .unwrap();
    insert.with_bindings(full.clone()).unwrap();
    insert.exec().unwrap();
    insert.with_bindings(partial.clone()).unwrap();
    insert.exec().unwrap();

    let read = connection
        .prepare("SELECT a, b, c, d FROM t")
        .unwrap()
        .rows::<(String, i64, Vec<u8>, Option<String>)>()
        .unwrap();
    assert_eq!(read, vec![full, partial]);
}

#[test]
fn narrow_integers_check_their_range() {
    let connection = Connection::open_memory("narrow_integers");
    connection.exec("CREATE TABLE t (c INTEGER);").unwrap();
    let mut insert = connection
        .prepare("INSERT INTO t (c) VALUES (?);")
        .unwrap();
    insert.with_bindings(-40i32).unwrap();
    insert.exec().unwrap();
    assert_eq!(
        connection.prepare("SELECT c FROM t").unwrap().row::<i32>().unwrap(),
        -40
    );

    connection.exec("DELETE FROM t;").unwrap();
    // One past the largest 32-bit unsigned value must not decode as u32.
    connection
        .exec("INSERT INTO t (c) VALUES (4294967296);")
        .unwrap();
    let result = connection.prepare("SELECT c FROM t").unwrap().row::<u32>();
    assert!(matches!(result, Err(SqlError::Decoding { .. })));
}

#[test]
fn negative_integers_do_not_decode_as_unsigned() {
    let connection = Connection::open_memory("negative_unsigned");
    connection.exec("CREATE TABLE t (c INTEGER);").unwrap();
    connection.exec("INSERT INTO t (c) VALUES (-5);").unwrap();
    let result = connection.prepare("SELECT c FROM t").unwrap().row::<usize>();
    assert!(matches!(result, Err(SqlError::Decoding { .. })));
}
