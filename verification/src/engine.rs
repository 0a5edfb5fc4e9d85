//! The trusted boundary to the embedded SQL engine.
//!
//! Every item here either declares an engine type so that it can stand in
//! signatures, or wraps exactly one engine call. Nothing in this module is
//! verified; everything else in the crate is proved against the contracts
//! stated here.

use vstd::prelude::*;

use rusqlite::Connection as RusqliteConnection;
use rusqlite::Statement as RusqliteStatement;

use crate::value::SqlValue;

verus! {

#[verifier::external_type_specification]
#[verifier::external_body]
pub struct ExEngineConnection(RusqliteConnection);

#[verifier::external_type_specification]
#[verifier::external_body]
pub struct ExEngineStatement<'conn>(RusqliteStatement<'conn>);

#[verifier::external_type_specification]
#[verifier::external_body]
pub struct ExEngineRows<'stmt>(rusqlite::Rows<'stmt>);

#[verifier::external_type_specification]
#[verifier::external_body]
pub struct ExEngineRow<'stmt>(rusqlite::Row<'stmt>);

#[verifier::external_type_specification]
#[verifier::external_body]
pub struct ExEngineError(rusqlite::Error);

/// Relies on rusqlite::Connection::open_with_flags: opens a file-backed
/// database at `path` with create-if-missing semantics, in the engine mode
/// that forbids concurrent use of one handle from several threads.
#[verifier::external_body]
pub(crate) fn open_file_raw(path: &str) -> (r: Result<rusqlite::Connection, rusqlite::Error>) {
    let flags = rusqlite::OpenFlags::SQLITE_OPEN_READ_WRITE
        | rusqlite::OpenFlags::SQLITE_OPEN_CREATE
        | rusqlite::OpenFlags::SQLITE_OPEN_NO_MUTEX;
    rusqlite::Connection::open_with_flags(path, flags)
}

/// Relies on rusqlite::Connection::open_with_flags with a
/// `file:<name>?mode=memory&cache=shared` URI: connections opened with the
/// same name observe one shared in-memory store. A failure to open an
/// in-memory store is unrecoverable and stops the process here.
#[verifier::external_body]
pub(crate) fn open_memory_raw(name: &str) -> (r: rusqlite::Connection) {
    let uri = format!("file:{}?mode=memory&cache=shared", name);
    let flags = rusqlite::OpenFlags::SQLITE_OPEN_READ_WRITE
        | rusqlite::OpenFlags::SQLITE_OPEN_CREATE
        | rusqlite::OpenFlags::SQLITE_OPEN_NO_MUTEX
        | rusqlite::OpenFlags::SQLITE_OPEN_URI;
    rusqlite::Connection::open_with_flags(uri, flags)
        .expect("could not create fallback in memory db")
}

/// Relies on rusqlite::Connection::execute_batch: runs one or more
/// semicolon-separated statements with no parameter binding and no rows
/// handed back.
#[verifier::external_body]
pub(crate) fn exec_raw(conn: &rusqlite::Connection, sql: &str) -> (r: Result<
    (),
    rusqlite::Error,
>) {
    conn.execute_batch(sql)
}

/// Relies on rusqlite::Connection::last_insert_rowid: the row identifier of
/// the most recent successful insert on this connection.
#[verifier::external_body]
pub(crate) fn last_insert_rowid_raw(conn: &rusqlite::Connection) -> (r: i64) {
    conn.last_insert_rowid()
}

/// Relies on rusqlite::Connection::prepare: compiles one SQL statement into
/// a reusable handle that borrows this connection.
#[verifier::external_body]
pub(crate) fn prepare_raw<'conn>(conn: &'conn rusqlite::Connection, sql: &str) -> (r: Result<
    rusqlite::Statement<'conn>,
    rusqlite::Error,
>) {
    conn.prepare(sql)
}

/// Relies on rusqlite::Statement::raw_bind_parameter: writes a value into
/// the 1-based parameter slot `index`, failing on an index the statement
/// does not have. The engine takes the slot index as a 32-bit integer and
/// rusqlite passes it through unchecked, so larger indices must never reach
/// this call.
#[verifier::external_body]
pub(crate) fn bind_raw(
    stmt: &mut rusqlite::Statement<'_>,
    index: usize,
    value: SqlValue,
) -> (r: Result<(), rusqlite::Error>)
    requires
        index <= i32::MAX as usize,
{
    let engine_value = match value {
        SqlValue::Null => rusqlite::types::Value::Null,
        SqlValue::Integer(i) => rusqlite::types::Value::Integer(i),
        SqlValue::Text(s) => rusqlite::types::Value::Text(s),
        SqlValue::Blob(b) => rusqlite::types::Value::Blob(b),
    };
    stmt.raw_bind_parameter(index, engine_value)
}

/// Relies on rusqlite::Statement::column_count: how many columns each result
/// row of this prepared statement has.
#[verifier::external_body]
pub(crate) fn column_count_raw(stmt: &rusqlite::Statement<'_>) -> (r: usize) {
    stmt.column_count()
}

/// Relies on rusqlite::Statement::raw_query: begins a pass over the
/// statement's result rows with the parameters bound so far.
#[verifier::external_body]
pub(crate) fn query_raw<'s, 'conn>(stmt: &'s mut rusqlite::Statement<'conn>) -> (r:
    rusqlite::Rows<'s>) {
    stmt.raw_query()
}

/// Relies on rusqlite::Rows::next: steps the statement once, handing back
/// the next result row, or nothing once the statement is done.
#[verifier::external_body]
pub(crate) fn next_row_raw<'a, 's>(rows: &'a mut rusqlite::Rows<'s>) -> (r: Result<
    Option<&'a rusqlite::Row<'s>>,
    rusqlite::Error,
>) {
    rows.next()
}

/// Relies on rusqlite::Row::get with the engine's dynamically typed value:
/// reads the stored value of column `index` of the current row. A value kind
/// the library does not model (floating point) comes back as `None`.
#[verifier::external_body]
pub(crate) fn get_value_raw(row: &rusqlite::Row<'_>, index: usize) -> (r: Result<
    Option<SqlValue>,
    rusqlite::Error,
>) {
    match row.get::<usize, rusqlite::types::Value>(index) {
        Ok(rusqlite::types::Value::Null) => Ok(Some(SqlValue::Null)),
        Ok(rusqlite::types::Value::Integer(i)) => Ok(Some(SqlValue::Integer(i))),
        Ok(rusqlite::types::Value::Text(s)) => Ok(Some(SqlValue::Text(s))),
        Ok(rusqlite::types::Value::Blob(b)) => Ok(Some(SqlValue::Blob(b))),
        Ok(rusqlite::types::Value::Real(_)) => Ok(None),
        Err(e) => Err(e),
    }
}

/// Relies on rusqlite::backup::Backup::new and Backup::step: one whole-store
/// pass copying `source`'s primary data store over `destination`'s. A pass
/// the engine could not finish (a busy or locked store) comes back as an
/// error rather than being retried, so the call always returns.
#[verifier::external_body]
pub(crate) fn backup_raw(
    source: &rusqlite::Connection,
    destination: &mut rusqlite::Connection,
) -> (r: Result<(), rusqlite::Error>) {
    let backup = rusqlite::backup::Backup::new(source, destination)?;
    match backup.step(-1)? {
        rusqlite::backup::StepResult::Done => Ok(()),
        rusqlite::backup::StepResult::Locked => Err(
            rusqlite::Error::SqliteFailure(rusqlite::ffi::Error::new(rusqlite::ffi::SQLITE_LOCKED), None),
        ),
        _ => Err(
            rusqlite::Error::SqliteFailure(rusqlite::ffi::Error::new(rusqlite::ffi::SQLITE_BUSY), None),
        ),
    }
}

/// Relies on rusqlite::Error: a failed call reports the engine's extended
/// status code where one exists (a generic failure code otherwise) and a
/// printable message.
#[verifier::external_body]
pub(crate) fn error_parts(e: &rusqlite::Error) -> (r: (i64, String)) {
    let message = format!("{}", e);
    match e {
        rusqlite::Error::SqliteFailure(inner, _) => (inner.extended_code as i64, message),
        _ => (1, message),
    }
}

} // verus!
