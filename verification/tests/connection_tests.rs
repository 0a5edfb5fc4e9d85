use sqlez::connection::Connection;
use sqlez::migrations::Migration;

#[test]
fn string_round_trips() {
    let connection = Connection::open_memory("string_round_trips");
    connection
        .exec(
            "CREATE TABLE text (
                text TEXT
            );",
        )
        .unwrap();

    let text = "Some test text";

    let mut insert = connection
        .prepare("INSERT INTO text (text) VALUES (?);")
        .unwrap();
    insert.with_bindings(text).unwrap();
    insert.exec().unwrap();

    assert_eq!(
        &connection
            .prepare("SELECT text FROM text;")
            .unwrap()
            .row::<String>()
            .unwrap(),
        text
    );
}

#[test]
fn tuple_round_trips() {
    let connection = Connection::open_memory("tuple_round_trips");
    connection
        .exec(
            "CREATE TABLE test (
                text TEXT,
                integer INTEGER,
                blob BLOB
            );",
        )
        .unwrap();

    let tuple1 = ("test".to_string(), 64, vec![0, 1, 2, 4, 8, 16, 32, 64]);
    let tuple2 = ("test2".to_string(), 32, vec![64, 32, 16, 8, 4, 2, 1, 0]);

    let mut insert = connection
        .prepare("INSERT INTO test (text, integer, blob) VALUES (?, ?, ?)")
        .unwrap();

    insert.with_bindings(tuple1.clone()).unwrap();
    insert.exec().unwrap();
    insert.with_bindings(tuple2.clone()).unwrap();
    insert.exec().unwrap();

    assert_eq!(
        connection
            .prepare("SELECT * FROM test")
            .unwrap()
            .rows::<(String, usize, Vec<u8>)>()
            .unwrap(),
        vec![tuple1, tuple2]
    );
}

#[test]
fn backup_works() {
    let connection1 = Connection::open_memory("backup_works");
    connection1
        .exec(
            "CREATE TABLE blobs (
                data BLOB
            );",
        )
        .unwrap();
    let blob = &[0, 1, 2, 4, 8, 16, 32, 64];
    let mut write = connection1
        .prepare("INSERT INTO blobs (data) VALUES (?);")
        .unwrap();
    write.bind_blob(1, blob).unwrap();
    write.exec().unwrap();

    // Backup connection1 to connection2
    let mut connection2 = Connection::open_memory("backup_works_other");
    connection1.backup_main(&mut connection2).unwrap();

    let read_blobs = connection1
        .prepare("SELECT * FROM blobs;")
        .unwrap()
        .rows::<Vec<u8>>()
        .unwrap();
    assert_eq!(read_blobs, vec![blob]);
}

#[test]
fn test_kv_store() {
    let connection = Connection::open_memory("kv_store");

    Migration::new(
        "kv",
        &["CREATE TABLE kv_store(
            key TEXT PRIMARY KEY,
            value TEXT NOT NULL
        ) STRICT;"],
    )
    .run(&connection)
    .unwrap();

    let mut stmt = connection
        .prepare("INSERT INTO kv_store(key, value) VALUES(?, ?)")
        .unwrap();
    stmt.bind_text(1, "a").unwrap();
    stmt.bind_text(2, "b").unwrap();
    stmt.exec().unwrap();
    let id = connection.last_insert_id();

    let mut select = connection
        .prepare("SELECT key, value FROM kv_store WHERE rowid = ?")
        .unwrap();
    select.with_bindings(id).unwrap();
    let res = select.row::<(String, String)>().unwrap();

    assert_eq!(res, ("a".to_string(), "b".to_string()));
}
