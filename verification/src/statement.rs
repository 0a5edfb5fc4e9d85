use vstd::prelude::*;

use vstd::string::StringExecFns;

use crate::bindable::{decode_row, write_params, Bind, Column};
use crate::connection::Connection;
use crate::engine;
use crate::error::{binding_error, execution_error, SqlError};
use crate::value::{SqlValue, SqlValueView};

verus! {

/// A prepared statement: one compiled query that exclusively borrows its
/// parent connection for its whole lifetime. Parameter slots are 1-based;
/// a statement may be stepped through several rows, and rebound for reuse.
pub struct Statement<'conn> {
    stmt: rusqlite::Statement<'conn>,
    params: Ghost<Map<int, SqlValueView>>,
}

/// Holds of a value that is a valid decode of the columns of some result
/// row, from its first column.
pub open spec fn decodes_some_row<T: Column>(value: T) -> bool {
    exists|cells: Seq<SqlValueView>| T::decodable(cells, 0) && T::fits(cells, 0, &value)
}

impl<'conn> Statement<'conn> {
    /// The parameter slots written so far, by 1-based slot index.
    pub closed spec fn params(&self) -> Map<int, SqlValueView> {
        self.params@
    }

    pub(crate) fn prepare(connection: &'conn Connection, query: &str) -> (r: Result<
        Statement<'conn>,
        SqlError,
    >)
        ensures
            r is Ok ==> r->Ok_0.params() == Map::<int, SqlValueView>::empty(),
            r is Err ==> r->Err_0 is Execution,
    {
        match engine::prepare_raw(&connection.conn, query) {
            Ok(stmt) => Ok(Statement { stmt, params: Ghost(Map::empty()) }),
            Err(e) => Err(execution_error(e)),
        }
    }

    /// Writes one value into the parameter slot `index`; the engine rejects
    /// a slot the statement does not have. The engine addresses slots with a
    /// 32-bit index, so an index beyond that range is rejected here, before
    /// it could wrap around at the foreign boundary.
    pub fn bind_value(&mut self, index: usize, value: SqlValue) -> (r: Result<(), SqlError>)
        ensures
            r is Ok ==> final(self).params() == old(self).params().insert(index as int, value@),
            r is Err ==> r->Err_0 is Binding && final(self).params() == old(self).params(),
    {
        if index > (i32::MAX as usize) {
            return Err(
                SqlError::Binding {
                    message: String::from_str("parameter slot index out of the engine's range"),
                },
            );
        }
        let ghost v = value@;
        match engine::bind_raw(&mut self.stmt, index, value) {
            Ok(()) => {
                self.params = Ghost(self.params@.insert(index as int, v));
                Ok(())
            },
            Err(e) => Err(binding_error(e)),
        }
    }

    /// Writes the absent value into the parameter slot `index`.
    pub fn bind_null(&mut self, index: usize) -> (r: Result<(), SqlError>)
        ensures
            r is Ok ==> final(self).params() == old(self).params().insert(
                index as int,
                SqlValueView::Null,
            ),
            r is Err ==> r->Err_0 is Binding,
    {
        self.bind_value(index, SqlValue::Null)
    }

    /// Writes a 64-bit signed integer into the parameter slot `index`.
    pub fn bind_int(&mut self, index: usize, value: i64) -> (r: Result<(), SqlError>)
        ensures
            r is Ok ==> final(self).params() == old(self).params().insert(
                index as int,
                SqlValueView::Integer(value as int),
            ),
            r is Err ==> r->Err_0 is Binding,
    {
        self.bind_value(index, SqlValue::Integer(value))
    }

    /// Writes a text value into the parameter slot `index`.
    pub fn bind_text(&mut self, index: usize, value: &str) -> (r: Result<(), SqlError>)
        ensures
            r is Ok ==> final(self).params() == old(self).params().insert(
                index as int,
                SqlValueView::Text(value@),
            ),
            r is Err ==> r->Err_0 is Binding,
    {
        self.bind_value(index, SqlValue::Text(String::from_str(value)))
    }

    /// Writes a byte blob into the parameter slot `index`.
    pub fn bind_blob(&mut self, index: usize, value: &[u8]) -> (r: Result<(), SqlError>)
        ensures
            r is Ok ==> final(self).params() == old(self).params().insert(
                index as int,
                SqlValueView::Blob(value@),
            ),
            r is Err ==> r->Err_0 is Binding,
    {
        self.bind_value(index, SqlValue::Blob(vstd::slice::slice_to_vec(value)))
    }

    /// Binds a whole structured value at the consecutive slots starting
    /// from slot 1.
    pub fn with_bindings<B: Bind>(&mut self, bindings: B) -> (r: Result<(), SqlError>)
        ensures
            r is Ok ==> final(self).params() == write_params(
                old(self).params(),
                1,
                bindings.encoded(),
            ),
            r is Err ==> r->Err_0 is Binding,
    {
        bindings.bind(self, 1)?;
        Ok(())
    }

    /// Steps the statement until it is done, discarding any produced rows;
    /// for writes and schema changes.
    pub fn exec(&mut self) -> (r: Result<(), SqlError>)
        ensures
            final(self).params() == old(self).params(),
            r is Err ==> r->Err_0 is Execution,
    {
        step_to_done(&mut self.stmt)
    }

    /// Steps once and decodes the produced row as `T`; fails with a no-rows
    /// error if the statement produced no row at all.
    pub fn row<T: Column>(&mut self) -> (r: Result<T, SqlError>)
        ensures
            final(self).params() == old(self).params(),
            r is Ok ==> decodes_some_row::<T>(r->Ok_0),
            r is Err ==> (r->Err_0 is NoRows || r->Err_0 is Decoding || r->Err_0 is Execution),
    {
        let fetched = fetch_first_row(&mut self.stmt)?;
        let ghost fetched_view = fetched;
        let r = decode_single_row::<T>(fetched);
        proof {
            if r is Ok {
                match fetched_view {
                    Option::Some(cells) => {
                        let rv = crate::value::row_view(cells@);
                        assert(T::decodable(rv, 0) && T::fits(rv, 0, &r->Ok_0));
                        assert(decodes_some_row::<T>(r->Ok_0));
                    },
                    Option::None => {
                        assert(false);
                    },
                }
            }
        }
        r
    }

    /// Steps repeatedly until done, decoding each produced row as `T` and
    /// keeping the engine's emission order.
    pub fn rows<T: Column>(&mut self) -> (r: Result<Vec<T>, SqlError>)
        ensures
            final(self).params() == old(self).params(),
            r is Ok ==> forall|i: int|
                0 <= i < r->Ok_0@.len() ==> decodes_some_row::<T>(#[trigger] r->Ok_0@[i]),
            r is Err ==> (r->Err_0 is Decoding || r->Err_0 is Execution),
    {
        collect_rows::<T>(&mut self.stmt)
    }
}


/// Steps a compiled statement until it is done, discarding any rows.
fn step_to_done(stmt: &mut rusqlite::Statement<'_>) -> (r: Result<(), SqlError>)
    ensures
        r is Err ==> r->Err_0 is Execution,
{
    let mut rows = engine::query_raw(stmt);
    let mut fuel: usize = usize::MAX;
    while fuel > 0
        decreases fuel,
    {
        match engine::next_row_raw(&mut rows) {
            Ok(None) => {
                return Ok(());
            },
            Ok(Some(_)) => {
            },
            Err(e) => {
                return Err(execution_error(e));
            },
        }
        fuel -= 1;
    }
    Err(
        SqlError::Execution {
            code: 1,
            message: String::from_str("statement produced more rows than can be counted"),
        },
    )
}

/// Decodes the engine's single-row answer: a missing row is exactly the
/// no-rows failure, a present row decodes as `T` under the decoding
/// protocol's exact contract.
pub fn decode_single_row<T: Column>(fetched: Option<Vec<SqlValue>>) -> (r: Result<T, SqlError>)
    ensures
        fetched is None <==> (r is Err && r->Err_0 is NoRows),
        fetched matches Some(cells) ==> (r is Ok <==> T::decodable(
            crate::value::row_view(cells@),
            0,
        )),
        fetched matches Some(cells) ==> (r is Ok ==> T::fits(
            crate::value::row_view(cells@),
            0,
            &r->Ok_0,
        )),
        fetched matches Some(cells) ==> (r is Err ==> r->Err_0 is Decoding),
{
    match fetched {
        None => Err(SqlError::NoRows),
        Some(cells) => decode_row::<T>(&cells),
    }
}

/// Steps a compiled statement once and materializes the produced row's
/// columns, or nothing when the statement produced no row.
fn fetch_first_row(stmt: &mut rusqlite::Statement<'_>) -> (r: Result<
    Option<Vec<SqlValue>>,
    SqlError,
>)
    ensures
        r is Err ==> (r->Err_0 is Decoding || r->Err_0 is Execution),
{
    let count = engine::column_count_raw(stmt);
    let mut rows = engine::query_raw(stmt);
    match engine::next_row_raw(&mut rows) {
        Ok(None) => Ok(None),
        Ok(Some(row)) => Ok(Some(read_row(row, count)?)),
        Err(e) => Err(execution_error(e)),
    }
}

/// Steps a compiled statement until done, decoding every produced row as
/// `T` in emission order.
fn collect_rows<T: Column>(stmt: &mut rusqlite::Statement<'_>) -> (r: Result<Vec<T>, SqlError>)
    ensures
        r is Ok ==> forall|i: int|
            0 <= i < r->Ok_0@.len() ==> decodes_some_row::<T>(#[trigger] r->Ok_0@[i]),
        r is Err ==> (r->Err_0 is Decoding || r->Err_0 is Execution),
{
    let count = engine::column_count_raw(stmt);
    let mut out: Vec<T> = Vec::new();
    let mut rows = engine::query_raw(stmt);
    let mut fuel: usize = usize::MAX;
    while fuel > 0
        invariant
            forall|i: int| 0 <= i < out@.len() ==> decodes_some_row::<T>(#[trigger] out@[i]),
        decreases fuel,
    {
        match engine::next_row_raw(&mut rows) {
            Ok(None) => {
                return Ok(out);
            },
            Ok(Some(row)) => {
                let cells = read_row(row, count)?;
                let value = decode_row::<T>(&cells)?;
                proof {
                    let rv = crate::value::row_view(cells@);
                    assert(T::decodable(rv, 0) && T::fits(rv, 0, &value));
                    assert(decodes_some_row::<T>(value));
                }
                out.push(value);
            },
            Err(e) => {
                return Err(execution_error(e));
            },
        }
        fuel -= 1;
    }
    Err(
        SqlError::Execution {
            code: 1,
            message: String::from_str("statement produced more rows than can be counted"),
        },
    )
}

/// Materializes the stored values of the current row's `count` columns.
fn read_row(row: &rusqlite::Row<'_>, count: usize) -> (r: Result<Vec<SqlValue>, SqlError>)
    ensures
        r is Err ==> (r->Err_0 is Decoding || r->Err_0 is Execution),
{
    let mut cells: Vec<SqlValue> = Vec::new();
    let mut index: usize = 0;
    while index < count
        invariant
            index <= count,
        decreases count - index,
    {
        match engine::get_value_raw(row, index) {
            Ok(Some(value)) => cells.push(value),
            Ok(None) => {
                return Err(
                    SqlError::Decoding {
                        message: String::from_str("a stored value kind the library does not model"),
                    },
                );
            },
            Err(e) => {
                return Err(execution_error(e));
            },
        }
        index += 1;
    }
    Ok(cells)
}

} // verus!
