use vstd::prelude::*;

use vstd::string::{StringExecFns, StrSliceExecFns};

use crate::engine;
use crate::error::{open_error, execution_error, SqlError};
use crate::statement::Statement;
use crate::value::SqlValueView;

verus! {

/// Whether the text holds a NUL character anywhere. The engine reads query
/// text up to the first NUL, so such text must be rejected outright rather
/// than silently truncated.
pub open spec fn has_nul_char(text: Seq<char>) -> bool {
    exists|i: int| 0 <= i < text.len() && text[i] == '\0'
}

/// Decides exactly whether the query text holds a NUL character.
fn text_has_nul(text: &str) -> (r: bool)
    ensures
        r == has_nul_char(text@),
{
    let length = text.unicode_len();
    let mut index: usize = 0;
    while index < length
        invariant
            index <= length,
            length == text@.len(),
            forall|j: int| 0 <= j < index ==> text@[j] != '\0',
        decreases length - index,
    {
        if text.get_char(index) == '\0' {
            return true;
        }
        index += 1;
    }
    false
}

/// The error reported for query text that holds a NUL character.
fn nul_error() -> (r: SqlError)
    ensures
        r is Execution,
{
    SqlError::Execution {
        code: 1,
        message: String::from_str("the SQL text holds a NUL character"),
    }
}

/// Owns exactly one native engine handle, from a successful open until the
/// owning scope ends; the handle is never shared between two connections.
pub struct Connection {
    pub(crate) conn: rusqlite::Connection,
    pub(crate) persistent: bool,
}

impl Connection {
    /// Whether this connection came from the file-backed open path rather
    /// than the in-memory one.
    pub closed spec fn is_persistent(&self) -> bool {
        self.persistent
    }

    fn open(uri: &str, persistent: bool) -> (r: Result<Connection, SqlError>)
        ensures
            r is Ok ==> r->Ok_0.is_persistent() == persistent,
            r is Err ==> r->Err_0 is Open,
    {
        match engine::open_file_raw(uri) {
            Ok(conn) => Ok(Connection { conn, persistent }),
            Err(e) => Err(open_error(e)),
        }
    }

    /// The degrade-to-ephemeral policy: a connection that opened is used as
    /// it is; where the file-backed open failed, a shared in-memory store
    /// under the same name takes its place, so the caller always gets a
    /// usable connection, never marked persistent. The open failure itself
    /// is deliberately discarded.
    fn resolve_open(opened: Result<Connection, SqlError>, uri: &str) -> (c: Connection)
        ensures
            opened matches Ok(conn) ==> c == conn,
            opened is Err ==> !c.is_persistent(),
    {
        match opened {
            Ok(c) => c,
            Err(_) => Self::open_memory(uri),
        }
    }

    /// Attempts to open a persistent store at `uri` with create-if-missing
    /// semantics. On failure a shared in-memory store under the same name is
    /// opened instead, so the caller always gets a usable connection; the
    /// original open failure is deliberately discarded.
    pub fn open_file(uri: &str) -> (c: Connection) {
        Self::resolve_open(Self::open(uri, true), uri)
    }

    /// Opens a named, shared in-memory store: two connections opened with
    /// the same name observe the same data.
    pub fn open_memory(uri: &str) -> (c: Connection)
        ensures
            !c.is_persistent(),
    {
        Connection { conn: engine::open_memory_raw(uri), persistent: false }
    }

    /// Reports which open path produced this connection.
    pub fn persistent(&self) -> (r: bool)
        ensures
            r == self.is_persistent(),
    {
        self.persistent
    }

    /// The row identifier of the most recent successful insert on this
    /// connection; connection-scoped mutable state, meaningful only right
    /// after a single-row insert.
    pub fn last_insert_id(&self) -> i64 {
        engine::last_insert_rowid_raw(&self.conn)
    }

    /// Executes one or more semicolon-separated statements with no parameter
    /// binding and no row retrieval. Query text holding a NUL character is
    /// rejected before it reaches the engine.
    pub fn exec(&self, query: &str) -> (r: Result<(), SqlError>)
        ensures
            r is Err ==> r->Err_0 is Execution,
            has_nul_char(query@) ==> r is Err,
    {
        if text_has_nul(query) {
            return Err(nul_error());
        }
        match engine::exec_raw(&self.conn, query) {
            Ok(()) => Ok(()),
            Err(e) => Err(execution_error(e)),
        }
    }

    /// Executes `query`, then hands back the engine's last-inserted row
    /// identifier for this connection.
    pub fn insert(&self, query: &str) -> (r: Result<i64, SqlError>)
        ensures
            r is Err ==> r->Err_0 is Execution,
            has_nul_char(query@) ==> r is Err,
    {
        self.exec(query)?;
        Ok(self.last_insert_id())
    }

    /// Compiles `query` (exactly one statement) into a reusable handle bound
    /// to this connection's lifetime, with no parameters written yet. Query
    /// text holding a NUL character is rejected before it reaches the engine.
    pub fn prepare<'conn>(&'conn self, query: &str) -> (r: Result<Statement<'conn>, SqlError>)
        ensures
            r is Ok ==> r->Ok_0.params() == Map::<int, SqlValueView>::empty(),
            r is Err ==> r->Err_0 is Execution,
            has_nul_char(query@) ==> r is Err,
    {
        if text_has_nul(query) {
            return Err(nul_error());
        }
        Statement::prepare(self, query)
    }

    /// Copies this connection's whole primary data store into `destination`
    /// in one operation, replacing the destination's prior contents.
    pub fn backup_main(&self, destination: &mut Connection) -> (r: Result<(), SqlError>)
        ensures
            final(destination).is_persistent() == old(destination).is_persistent(),
            r is Err ==> r->Err_0 is Execution,
    {
        match engine::backup_raw(&self.conn, &mut destination.conn) {
            Ok(()) => Ok(()),
            Err(e) => Err(execution_error(e)),
        }
    }
}

} // verus!
