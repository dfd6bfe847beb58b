//! The migration ledger: the table that records which units were applied.
//!
//! The table's `UNIQUE` constraint on the name is the at-most-once guard: a
//! second record of the same name is rejected by SQLite.

use vstd::prelude::*;
use rusqlite::Connection;
use crate::error::InitError;
use crate::error::InitStage;
use crate::sqlite::Datum;
use crate::sqlite::SqlValue;
use crate::sqlite::values;
use crate::sqlite::execute_batch;
use crate::sqlite::execute_with;
use crate::sqlite::query_texts;

verus! {

/// One row of the ledger. A row is written once, when its unit has been
/// applied, and never changed or removed.
#[derive(Clone, Debug)]
pub struct MigrationRecord {
    pub name: String,
    pub applied_at: i64,
}

/// Creates the ledger table where there is none. The name is `UNIQUE`: that
/// is the at-most-once guard.
pub const CREATE_LEDGER: &'static str =
    "CREATE TABLE IF NOT EXISTS migrations (
            id INTEGER PRIMARY KEY AUTOINCREMENT,
            name TEXT NOT NULL UNIQUE,
            applied_at INTEGER NOT NULL
        )";

/// Lists the recorded names, in ascending order.
pub const LIST_LEDGER: &'static str = "SELECT name FROM migrations ORDER BY name";

/// Records one name (`?1`) with the time of its application (`?2`).
pub const INSERT_RECORD: &'static str = "INSERT INTO migrations (name, applied_at) VALUES (?1, ?2)";

/// The statement that creates the ledger table where there is none.
pub fn ledger_creation() -> (sql: &'static str)
    ensures
        sql@ == CREATE_LEDGER@,
{
    CREATE_LEDGER
}

/// The query that lists the recorded names.
pub fn ledger_listing() -> (sql: &'static str)
    ensures
        sql@ == LIST_LEDGER@,
{
    LIST_LEDGER
}

/// The statement that records one name.
pub fn record_statement() -> (sql: &'static str)
    ensures
        sql@ == INSERT_RECORD@,
{
    INSERT_RECORD
}

/// Creates the ledger table where it does not exist yet.
pub fn ensure_table(conn: &Connection) -> (r: Result<(), InitError>)
    ensures
        r matches Err(e) ==> e.stage == InitStage::Ledger,
{
    match execute_batch(conn, ledger_creation()) {
        Ok(()) => Ok(()),
        Err(e) => Err(InitError::at(InitStage::Ledger, "", &e)),
    }
}

/// The names of the units that the ledger records.
pub fn list_applied(conn: &Connection) -> (r: Result<Vec<String>, InitError>)
    ensures
        r matches Err(e) ==> e.stage == InitStage::Ledger,
{
    match query_texts(conn, ledger_listing()) {
        Ok(names) => Ok(names),
        Err(e) => Err(InitError::at(InitStage::Ledger, "", &e)),
    }
}

/// The values bound to the insert of a ledger row: the name, then the time.
pub open spec fn record_values(entry: MigrationRecord) -> Seq<Datum> {
    seq![Datum::Text(entry.name@), Datum::Integer(entry.applied_at as int)]
}

/// The values bound to the insert of a ledger row.
pub fn record_parameters(entry: MigrationRecord) -> (params: Vec<SqlValue>)
    ensures
        values(params@) == record_values(entry),
{
    let mut params: Vec<SqlValue> = Vec::new();
    params.push(SqlValue::Text(entry.name));
    params.push(SqlValue::Integer(entry.applied_at));
    assert(values(params@) =~= record_values(entry));
    params
}

/// Writes one row to the ledger. SQLite rejects the row where the name is
/// already recorded.
pub fn record(conn: &Connection, entry: MigrationRecord) -> (r: Result<(), InitError>)
    ensures
        r matches Err(e) ==> e.stage == InitStage::Migration,
{
    let params = record_parameters(entry);
    match execute_with(conn, record_statement(), &params) {
        Ok(_) => Ok(()),
        Err(e) => Err(InitError::at(InitStage::Migration, "", &e)),
    }
}

} // verus!
