//! Reading typed values out of result rows.
//!
//! A column is read the way `rusqlite` reads it into a Rust type: a text only
//! from a text cell, an integer only from an integer cell, a 32-bit integer
//! only where the value fits, and an optional value from `NULL` as well. A
//! read fails (`None`) on every other cell, and on a column that the row does
//! not have.

use vstd::prelude::*;
use rusqlite::Connection;
use crate::sqlite::query_rows;
use crate::sqlite::Cell;
use crate::sqlite::SqlValue;
use crate::error::describe_error;
use crate::text::begins_with;
use crate::text::concat;

verus! {

/// The characters of an optional string.
pub open spec fn opt_view(s: Option<String>) -> Option<Seq<char>> {
    match s {
        Some(s) => Some(s@),
        None => None,
    }
}

/// The number in an optional 64-bit integer.
pub open spec fn opt_int(n: Option<i64>) -> Option<int> {
    match n {
        Some(n) => Some(n as int),
        None => None,
    }
}

/// The number in an optional 32-bit integer.
pub open spec fn opt_small(n: Option<i32>) -> Option<int> {
    match n {
        Some(n) => Some(n as int),
        None => None,
    }
}

/// Column `i` of `row` read as a text.
pub open spec fn text_at(row: Seq<Cell>, i: int) -> Option<Seq<char>> {
    if 0 <= i < row.len() {
        match row[i] {
            Cell::Text(s) => Some(s@),
            _ => None,
        }
    } else {
        None
    }
}

/// Column `i` of `row` read as a text or `NULL`.
pub open spec fn opt_text_at(row: Seq<Cell>, i: int) -> Option<Option<Seq<char>>> {
    if 0 <= i < row.len() {
        match row[i] {
            Cell::Null => Some(None),
            Cell::Text(s) => Some(Some(s@)),
            _ => None,
        }
    } else {
        None
    }
}

/// Column `i` of `row` read as a 64-bit integer.
pub open spec fn int_at(row: Seq<Cell>, i: int) -> Option<int> {
    if 0 <= i < row.len() {
        match row[i] {
            Cell::Integer(n) => Some(n as int),
            _ => None,
        }
    } else {
        None
    }
}

/// Column `i` of `row` read as a 64-bit integer or `NULL`.
pub open spec fn opt_int_at(row: Seq<Cell>, i: int) -> Option<Option<int>> {
    if 0 <= i < row.len() {
        match row[i] {
            Cell::Null => Some(None),
            Cell::Integer(n) => Some(Some(n as int)),
            _ => None,
        }
    } else {
        None
    }
}

/// Column `i` of `row` read as a 32-bit integer.
pub open spec fn small_at(row: Seq<Cell>, i: int) -> Option<int> {
    match int_at(row, i) {
        Some(n) => if i32::MIN <= n <= i32::MAX {
            Some(n)
        } else {
            None
        },
        None => None,
    }
}

/// Column `i` of `row` read as a 32-bit integer or `NULL`.
pub open spec fn opt_small_at(row: Seq<Cell>, i: int) -> Option<Option<int>> {
    match opt_int_at(row, i) {
        Some(Some(n)) => if i32::MIN <= n <= i32::MAX {
            Some(Some(n))
        } else {
            None
        },
        Some(None) => Some(None),
        None => None,
    }
}

/// Column `i` of `row` read as a flag: an integer other than 0 is `true`.
pub open spec fn flag_at(row: Seq<Cell>, i: int) -> Option<bool> {
    match int_at(row, i) {
        Some(n) => Some(n != 0),
        None => None,
    }
}

/// Reads column `i` as a text.
pub fn get_text(row: &Vec<Cell>, i: usize) -> (r: Option<String>)
    ensures
        opt_view(r) == text_at(row@, i as int),
{
    if i < row.len() {
        match &row[i] {
            Cell::Text(s) => Some(s.clone()),
            _ => None,
        }
    } else {
        None
    }
}

/// Reads column `i` as a text or `NULL`.
pub fn get_opt_text(row: &Vec<Cell>, i: usize) -> (r: Option<Option<String>>)
    ensures
        match r {
            Some(inner) => opt_text_at(row@, i as int) == Some(opt_view(inner)),
            None => opt_text_at(row@, i as int) is None,
        },
{
    if i < row.len() {
        match &row[i] {
            Cell::Null => Some(None),
            Cell::Text(s) => Some(Some(s.clone())),
            _ => None,
        }
    } else {
        None
    }
}

/// Reads column `i` as a 64-bit integer.
pub fn get_i64(row: &Vec<Cell>, i: usize) -> (r: Option<i64>)
    ensures
        opt_int(r) == int_at(row@, i as int),
{
    if i < row.len() {
        match &row[i] {
            Cell::Integer(n) => Some(*n),
            _ => None,
        }
    } else {
        None
    }
}

/// Reads column `i` as a 64-bit integer or `NULL`.
pub fn get_opt_i64(row: &Vec<Cell>, i: usize) -> (r: Option<Option<i64>>)
    ensures
        match r {
            Some(inner) => opt_int_at(row@, i as int) == Some(opt_int(inner)),
            None => opt_int_at(row@, i as int) is None,
        },
{
    if i < row.len() {
        match &row[i] {
            Cell::Null => Some(None),
            Cell::Integer(n) => Some(Some(*n)),
            _ => None,
        }
    } else {
        None
    }
}

/// Reads column `i` as a 32-bit integer.
pub fn get_i32(row: &Vec<Cell>, i: usize) -> (r: Option<i32>)
    ensures
        opt_small(r) == small_at(row@, i as int),
{
    match get_i64(row, i) {
        Some(n) => if -2147483648 <= n && n <= 2147483647 {
            Some(n as i32)
        } else {
            None
        },
        None => None,
    }
}

/// Reads column `i` as a 32-bit integer or `NULL`.
pub fn get_opt_i32(row: &Vec<Cell>, i: usize) -> (r: Option<Option<i32>>)
    ensures
        match r {
            Some(inner) => opt_small_at(row@, i as int) == Some(opt_small(inner)),
            None => opt_small_at(row@, i as int) is None,
        },
{
    match get_opt_i64(row, i) {
        Some(Some(n)) => if -2147483648 <= n && n <= 2147483647 {
            Some(Some(n as i32))
        } else {
            None
        },
        Some(None) => Some(None),
        None => None,
    }
}

/// Reads column `i` as a flag.
pub fn get_flag(row: &Vec<Cell>, i: usize) -> (r: Option<bool>)
    ensures
        r == flag_at(row@, i as int),
{
    match get_i64(row, i) {
        Some(n) => Some(n != 0),
        None => None,
    }
}

/// The first of the rows, if there is one; further rows are ignored.
pub fn first_of(rows: Vec<Vec<Cell>>) -> (first: Option<Vec<Cell>>)
    ensures
        rows@.len() == 0 ==> first is None,
        rows@.len() > 0 ==> first == Some(rows@[0]),
{
    let mut rows = rows;
    if rows.len() > 0 {
        Some(rows.swap_remove(0))
    } else {
        None
    }
}

/// Runs a query and hands back its first row, if it has one; further rows
/// are ignored (see [`first_of`]).
pub fn first_row(conn: &Connection, sql: &str, params: &Vec<SqlValue>) -> (r: Result<
    Option<Vec<Cell>>,
    rusqlite::Error,
>) {
    match query_rows(conn, sql, params) {
        Ok(rows) => Ok(first_of(rows)),
        Err(failure) => Err(failure.cause),
    }
}

/// The row that a lookup has to find. Where the query found none, the
/// message is `prefix`, then [`NO_ROWS`]; where the query failed, it is
/// `prefix`, then what the error says.
pub fn single_row(outcome: Result<Option<Vec<Cell>>, rusqlite::Error>, prefix: &str) -> (r: Result<
    Vec<Cell>,
    String,
>)
    ensures
        match outcome {
            Ok(Some(row)) => r == Ok::<Vec<Cell>, String>(row),
            Ok(None) => r matches Err(message) && message@ == prefix@ + NO_ROWS@,
            Err(_) => r matches Err(message) && begins_with(message@, prefix@),
        },
        r matches Err(message) ==> begins_with(message@, prefix@),
{
    match outcome {
        Ok(Some(row)) => Ok(row),
        Ok(None) => Err(concat(prefix, NO_ROWS)),
        Err(e) => Err(describe_error(prefix, &e)),
    }
}

/// What was read from a row. Where nothing could be read, the message is
/// `prefix`, then [`BAD_ROW`].
pub fn read_or<T>(read: Option<T>, prefix: &str) -> (r: Result<T, String>)
    ensures
        match read {
            Some(value) => r == Ok::<T, String>(value),
            None => r matches Err(message) && message@ == prefix@ + BAD_ROW@,
        },
        r matches Err(message) ==> begins_with(message@, prefix@),
{
    match read {
        Some(value) => Ok(value),
        None => Err(concat(prefix, BAD_ROW)),
    }
}

/// A count read from column `i`; 0 where the column cannot be read.
pub fn count_at(row: &Vec<Cell>, i: usize) -> (count: i64)
    ensures
        count == match int_at(row@, i as int) {
            Some(n) => n,
            None => 0,
        },
{
    match get_i64(row, i) {
        Some(n) => n,
        None => 0,
    }
}

/// The count that a counting query gave: the first column of its row, and 0
/// where it gave no row or something else than an integer.
pub open spec fn count_in(found: Option<Vec<Cell>>) -> int {
    match found {
        Some(row) => match int_at(row@, 0) {
            Some(n) => n,
            None => 0,
        },
        None => 0,
    }
}

/// The count that a counting query gave.
pub fn count_of(found: &Option<Vec<Cell>>) -> (count: i64)
    ensures
        count == count_in(*found),
{
    match found {
        Some(row) => count_at(row, 0),
        None => 0,
    }
}

/// Whether a count says that something is there.
pub fn counted(count: i64) -> (present: bool)
    ensures
        present == (count > 0),
{
    count > 0
}

/// Whether the flag that a query gave is set: the first column of its row is
/// an integer other than 0.
pub fn flag_of(found: &Option<Vec<Cell>>) -> (set: bool)
    ensures
        set == match *found {
            Some(row) => flag_at(row@, 0) == Some(true),
            None => false,
        },
{
    match found {
        Some(row) => match get_flag(row, 0) {
            Some(set) => set,
            None => false,
        },
        None => false,
    }
}

/// What SQLite's driver says of a query that should have had a row.
pub const NO_ROWS: &'static str = "Query returned no rows";

/// What is said of a row whose columns are not of the expected types.
pub const BAD_ROW: &'static str = "Invalid column type";

} // verus!
