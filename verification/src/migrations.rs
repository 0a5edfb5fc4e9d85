use vstd::prelude::*;

use vstd::string::StringExecFns;

use crate::connection::Connection;
use crate::error::SqlError;

verus! {

/// A named, ordered set of literal SQL migration steps for one migration
/// domain. Steps of a domain are applied at most once and in the given
/// order; recorded progress lives in a bookkeeping table on the connection.
pub struct Migration {
    domain: String,
    steps: Vec<String>,
}

/// Whether a step still has to run, given the step indices already recorded
/// for its domain.
pub open spec fn step_pending(applied: Seq<i64>, index: i64) -> bool {
    !applied.contains(index)
}

/// A recorded step is never selected again: once bookkeeping holds every
/// index below `total`, no step of a migration with `total` steps is
/// pending, so a repeated run selects nothing.
pub proof fn lemma_migration_idempotent(applied: Seq<i64>, total: int)
    requires
        forall|i: int| 0 <= i < total ==> applied.contains(#[trigger] (i as i64)),
    ensures
        forall|i: int| 0 <= i < total ==> !step_pending(applied, #[trigger] (i as i64)),
{
}

/// Whether `applied` holds `index`, decided exactly.
fn contains_step(applied: &Vec<i64>, index: i64) -> (r: bool)
    ensures
        r == applied@.contains(index),
{
    let mut position: usize = 0;
    while position < applied.len()
        invariant
            position <= applied@.len(),
            forall|j: int| 0 <= j < position ==> applied@[j] != index,
        decreases applied@.len() - position,
    {
        if applied[position] == index {
            return true;
        }
        position += 1;
    }
    false
}

impl Migration {
    /// The migration domain's name.
    pub closed spec fn domain_view(&self) -> Seq<char> {
        self.domain@
    }

    /// The SQL text of each step, in order.
    pub closed spec fn steps_view(&self) -> Seq<Seq<char>> {
        self.steps@.map_values(|s: String| s@)
    }

    /// Builds the migration set for `domain` from its ordered SQL steps.
    pub fn new(domain: &str, steps: &[&str]) -> (m: Migration)
        ensures
            m.domain_view() == domain@,
            m.steps_view().len() == steps@.len(),
            forall|i: int| 0 <= i < steps@.len() ==> m.steps_view()[i] == steps@[i]@,
    {
        let mut owned: Vec<String> = Vec::new();
        let mut index: usize = 0;
        while index < steps.len()
            invariant
                index <= steps@.len(),
                owned@.len() == index,
                forall|j: int| 0 <= j < index ==> owned@[j]@ == steps@[j]@,
            decreases steps@.len() - index,
        {
            let step = *vstd::slice::slice_index_get(steps, index);
            owned.push(String::from_str(step));
            index += 1;
        }
        Migration { domain: String::from_str(domain), steps: owned }
    }

    /// Ensures the bookkeeping table exists, then executes only the steps
    /// whose index is not yet recorded for this domain, in ascending order,
    /// recording each as it completes. A step that fails leaves the steps
    /// already completed in place, recorded; nothing is rolled back.
    pub fn run(&self, connection: &Connection) -> (r: Result<(), SqlError>)
        ensures
            r is Err ==> (r->Err_0 is Migration || r->Err_0 is Execution || r->Err_0 is Binding
                || r->Err_0 is Decoding),
    {
        connection.exec(
            "CREATE TABLE IF NOT EXISTS migrations (domain TEXT, step INTEGER, migration TEXT)",
        )?;
        let mut select = connection.prepare("SELECT step FROM migrations WHERE domain = ?")?;
        select.bind_text(1, self.domain.as_str())?;
        let applied: Vec<i64> = select.rows()?;

        let mut index: usize = 0;
        while index < self.steps.len()
            invariant
                index <= self.steps@.len(),
            decreases self.steps@.len() - index,
        {
            if (index as u64) > (i64::MAX as u64) {
                return Err(
                    SqlError::Migration {
                        code: 1,
                        message: String::from_str("too many migration steps to record"),
                    },
                );
            }
            let step_index = index as i64;
            if !contains_step(&applied, step_index) {
                match connection.exec(self.steps[index].as_str()) {
                    Ok(()) => (),
                    Err(e) => {
                        return Err(step_failure(e));
                    },
                }
                let mut record = connection.prepare(
                    "INSERT INTO migrations (domain, step, migration) VALUES (?, ?, ?)",
                )?;
                record.bind_text(1, self.domain.as_str())?;
                record.bind_int(2, step_index)?;
                record.bind_text(3, self.steps[index].as_str())?;
                record.exec()?;
            }
            index += 1;
        }
        Ok(())
    }
}

/// Folds the failure of one migration step into a migration error carrying
/// the engine's code and message.
fn step_failure(e: SqlError) -> (r: SqlError)
    ensures
        r is Migration,
        e matches SqlError::Execution { code, message } ==> r == (SqlError::Migration {
            code,
            message,
        }),
{
    match e {
        SqlError::Execution { code, message } => SqlError::Migration { code, message },
        SqlError::Open { code, message } => SqlError::Migration { code, message },
        SqlError::Migration { code, message } => SqlError::Migration { code, message },
        SqlError::Binding { message } => SqlError::Migration { code: 1, message },
        SqlError::Decoding { message } => SqlError::Migration { code: 1, message },
        SqlError::NoRows => SqlError::Migration { code: 1, message: String::new() },
    }
}

} // verus!
