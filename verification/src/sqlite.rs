//! The boundary to SQLite: every call into `rusqlite` is made here, and the
//! values that cross the boundary are defined here.
//!
//! The functions of this file are taken on trust. Each states, at most, what
//! the `rusqlite` documentation promises of the call it makes; what a
//! statement does to the database is never assumed.

use vstd::prelude::*;
use rusqlite::Connection;
use rusqlite::Transaction;
use std::path::PathBuf;

verus! {

/// `rusqlite::Connection`: an open database handle, opaque to the verifier.
#[verifier::external_type_specification]
#[verifier::external_body]
pub struct ExConnection(rusqlite::Connection);

/// `rusqlite::Error`: whatever SQLite or `rusqlite` reported, opaque to the verifier.
#[verifier::external_type_specification]
#[verifier::external_body]
pub struct ExSqlError(rusqlite::Error);

/// `rusqlite::Transaction`: an open transaction that rolls back when dropped.
#[verifier::external_type_specification]
#[verifier::external_body]
pub struct ExTransaction<'conn>(rusqlite::Transaction<'conn>);

/// `rusqlite::types::Value`: a value as `rusqlite` binds it to a parameter.
#[verifier::external_type_specification]
#[verifier::external_body]
pub struct ExBoundValue(rusqlite::types::Value);

/// `rusqlite::types::ValueRef`: a column value as `rusqlite` hands it out.
#[verifier::external_type_specification]
#[verifier::external_body]
pub struct ExValueRef<'a>(rusqlite::types::ValueRef<'a>);

/// `std::path::PathBuf`: a file-system path, carried through and never inspected.
#[verifier::external_type_specification]
#[verifier::external_body]
pub struct ExPathBuf(std::path::PathBuf);

/// A value bound to a statement parameter.
#[derive(Debug, Clone)]
pub enum SqlValue {
    Null,
    Integer(i64),
    Text(String),
}

/// A bound value as contracts see it.
pub enum Datum {
    Null,
    Integer(int),
    Text(Seq<char>),
}

impl View for SqlValue {
    type V = Datum;

    open spec fn view(&self) -> Datum {
        match self {
            SqlValue::Null => Datum::Null,
            SqlValue::Integer(i) => Datum::Integer(*i as int),
            SqlValue::Text(s) => Datum::Text(s@),
        }
    }
}

/// A list of bound values as contracts see it.
pub open spec fn values(params: Seq<SqlValue>) -> Seq<Datum> {
    params.map_values(|v: SqlValue| v@)
}

/// A value read from a column of a result row.
#[derive(Debug, Clone)]
pub enum Cell {
    /// SQL `NULL`.
    Null,
    /// An integer.
    Integer(i64),
    /// A floating-point number; this library never reads its value.
    Real,
    /// A text.
    Text(String),
    /// A text that is not valid UTF-8.
    Garbled,
    /// A blob.
    Blob(Vec<u8>),
}

/// Turns a value to bind into a `rusqlite::types::Value`, variant by variant.
#[verifier::external_body]
fn bound(value: &SqlValue) -> rusqlite::types::Value {
    match value {
        SqlValue::Null => rusqlite::types::Value::Null,
        SqlValue::Integer(i) => rusqlite::types::Value::Integer(*i),
        SqlValue::Text(s) => rusqlite::types::Value::Text(s.clone()),
    }
}

/// Turns a `rusqlite::types::ValueRef` into a [`Cell`], variant by variant.
/// The bytes of a text go through `std::str::from_utf8`; the number of a
/// real is dropped.
#[verifier::external_body]
fn cell(value: rusqlite::types::ValueRef<'_>) -> Cell {
    match value {
        rusqlite::types::ValueRef::Null => Cell::Null,
        rusqlite::types::ValueRef::Integer(i) => Cell::Integer(i),
        rusqlite::types::ValueRef::Real(_) => Cell::Real,
        rusqlite::types::ValueRef::Text(bytes) => match std::str::from_utf8(bytes) {
            Ok(text) => Cell::Text(text.to_string()),
            Err(_) => Cell::Garbled,
        },
        rusqlite::types::ValueRef::Blob(bytes) => Cell::Blob(bytes.to_vec()),
    }
}

/// Calls `Connection::open`. Whether the file could be opened is not predicted.
#[verifier::external_body]
pub(crate) fn open_connection(path: PathBuf) -> (r: Result<Connection, rusqlite::Error>) {
    Connection::open(path)
}

/// Calls `Connection::execute_batch`: runs every statement of `sql` in turn.
/// Nothing is claimed of the outcome.
#[verifier::external_body]
pub(crate) fn execute_batch(conn: &Connection, sql: &str) -> (r: Result<(), rusqlite::Error>) {
    conn.execute_batch(sql)
}

/// Calls `Connection::execute` with the values as positional parameters
/// (`rusqlite::params_from_iter`) and hands back the number of rows that
/// SQLite reports as changed. Nothing is claimed of it.
#[verifier::external_body]
pub(crate) fn execute_with(conn: &Connection, sql: &str, params: &Vec<SqlValue>) -> (r: Result<
    usize,
    rusqlite::Error,
>) {
    conn.execute(sql, rusqlite::params_from_iter(params.iter().map(bound)))
}

/// The step at which a query failed.
#[derive(Clone, Copy, Debug, PartialEq, Eq, Structural)]
pub enum QueryPhase {
    /// The statement could not be prepared.
    Prepare,
    /// The values could not be bound.
    Bind,
    /// A row could not be fetched.
    Fetch,
}

/// A failed query: the step at which it failed, and what SQLite reported.
#[derive(Debug)]
pub struct QueryFailure {
    pub phase: QueryPhase,
    pub cause: rusqlite::Error,
}

/// Calls `Connection::prepare` and `Statement::query_map` with the values as
/// positional parameters and collects every row, in the order in which
/// SQLite yields the rows. A row is the list of its column values, read with
/// `Row::get_ref` for each index below `Statement::column_count`. A failure
/// says which of the three calls failed: `prepare`, `query_map`, or the
/// fetching of a row. Nothing is claimed of the number of rows or of their
/// contents.
#[verifier::external_body]
pub(crate) fn query_rows(conn: &Connection, sql: &str, params: &Vec<SqlValue>) -> (r: Result<
    Vec<Vec<Cell>>,
    QueryFailure,
>) {
    let mut stmt = match conn.prepare(sql) {
        Ok(stmt) => stmt,
        Err(cause) => return Err(QueryFailure { phase: QueryPhase::Prepare, cause }),
    };
    let width = stmt.column_count();
    let values = rusqlite::params_from_iter(params.iter().map(bound));
    let rows = match stmt.query_map(values, |row| (0..width).map(|i| row.get_ref(i).map(cell)).collect()) {
        Ok(rows) => rows,
        Err(cause) => return Err(QueryFailure { phase: QueryPhase::Bind, cause }),
    };
    let all: Result<Vec<Vec<Cell>>, rusqlite::Error> = rows.collect();
    match all {
        Ok(all) => Ok(all),
        Err(cause) => Err(QueryFailure { phase: QueryPhase::Fetch, cause }),
    }
}

/// Calls `Connection::query_row` without parameters and reads the first
/// column of the first row as an `i64` with `Row::get`. Nothing is claimed of
/// the value.
#[verifier::external_body]
pub(crate) fn query_integer(conn: &Connection, sql: &str) -> (r: Result<i64, rusqlite::Error>) {
    conn.query_row(sql, [], |row| row.get::<_, i64>(0))
}

/// Calls `Connection::prepare` and `Statement::query_map` without parameters
/// and collects the first column of every row, read as a `String` with
/// `Row::get`, in the order in which SQLite yields the rows. Nothing is
/// claimed of their number or contents.
#[verifier::external_body]
pub(crate) fn query_texts(conn: &Connection, sql: &str) -> (r: Result<
    Vec<String>,
    rusqlite::Error,
>) {
    let mut stmt = conn.prepare(sql)?;
    let rows = stmt.query_map([], |row| row.get::<_, String>(0))?;
    rows.collect()
}

/// Calls `Connection::unchecked_transaction`: issues `BEGIN DEFERRED` and, on
/// success, hands back a guard that rolls back when it is dropped uncommitted.
#[verifier::external_body]
pub(crate) fn begin_transaction<'a>(conn: &'a Connection) -> (r: Result<
    Transaction<'a>,
    rusqlite::Error,
>) {
    conn.unchecked_transaction()
}

/// Calls `Transaction::commit`, which consumes the guard and issues `COMMIT`.
#[verifier::external_body]
pub(crate) fn commit_transaction(tx: Transaction<'_>) -> (r: Result<(), rusqlite::Error>) {
    tx.commit()
}

/// Renders an error through its `Display` impl. Nothing is claimed of the
/// text.
#[verifier::external_body]
pub(crate) fn error_text(e: &rusqlite::Error) -> (text: String) {
    e.to_string()
}

} // verus!
