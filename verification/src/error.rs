use vstd::prelude::*;

use crate::engine;

verus! {

/// The engine status code that reports success.
pub const STATUS_OK: i64 = 0;

/// The engine status code that reports that another result row is available.
pub const STATUS_ROW: i64 = 100;

/// A structured failure from the layer, carrying the engine's numeric status
/// code and message text where the engine supplied them.
#[derive(Debug)]
pub enum SqlError {
    /// The engine could not initialize a handle for an open request.
    Open { code: i64, message: String },
    /// A non-success status from executing or stepping a statement.
    Execution { code: i64, message: String },
    /// A value could not be encoded into a parameter slot.
    Binding { message: String },
    /// A stored column value's kind is incompatible with the requested type.
    Decoding { message: String },
    /// A single-row fetch found no rows.
    NoRows,
    /// A migration step failed mid-run.
    Migration { code: i64, message: String },
}

/// Translates a native engine status code into a structured result.
///
/// Success and "another row is available" are the only non-error codes;
/// every other code becomes an execution failure carrying the code and the
/// engine-provided message.
pub fn error_to_result(code: i64, message: String) -> (r: Result<(), SqlError>)
    ensures
        r is Ok <==> (code == STATUS_OK || code == STATUS_ROW),
        r is Err ==> (r->Err_0 matches SqlError::Execution { code: c, message: m }
            && c == code && m == message),
{
    if code == STATUS_OK || code == STATUS_ROW {
        Ok(())
    } else {
        Err(SqlError::Execution { code, message })
    }
}

/// Folds an engine-reported failure from an open call into an open error.
pub(crate) fn open_error(e: rusqlite::Error) -> (r: SqlError)
    ensures
        r is Open,
{
    let (code, message) = engine::error_parts(&e);
    SqlError::Open { code, message }
}

/// Folds an engine-reported failure from executing or stepping a statement
/// into an execution error.
pub(crate) fn execution_error(e: rusqlite::Error) -> (r: SqlError)
    ensures
        r is Execution,
{
    let (code, message) = engine::error_parts(&e);
    SqlError::Execution { code, message }
}

/// Folds an engine-reported failure from writing a parameter slot into a
/// binding error.
pub(crate) fn binding_error(e: rusqlite::Error) -> (r: SqlError)
    ensures
        r is Binding,
{
    let (_, message) = engine::error_parts(&e);
    SqlError::Binding { message }
}

} // verus!
