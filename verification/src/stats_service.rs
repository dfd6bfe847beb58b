//! Statistics over the tasks. The counts are formed here; the rates that
//! are made of them are left to the caller.

use vstd::prelude::*;
use crate::text::begins_with;
use crate::error::listing_failure;
use rusqlite::Connection;
use crate::clock::now;
use crate::rows::first_row;
use crate::rows::get_i64;
use crate::rows::get_opt_text;
use crate::rows::get_text;
use crate::rows::int_at;
use crate::rows::opt_text_at;
use crate::rows::opt_view;
use crate::rows::text_at;
use crate::rows::BAD_ROW;
use crate::numbers::shift;
use crate::numbers::shifted;
use crate::error::describe_error;
use crate::error::listing_error;
use crate::sqlite::query_rows;
use crate::sqlite::Cell;
use crate::sqlite::SqlValue;
use crate::text::concat;

verus! {

/// The tasks completed on one day.
#[derive(Debug)]
pub struct CompletionStats {
    pub date: String,
    pub count: i64,
}

/// The tasks of one priority.
#[derive(Debug)]
pub struct PriorityDistribution {
    pub priority: String,
    pub count: i64,
}

/// The day of the week on which most tasks were completed.
#[derive(Debug)]
pub struct MostProductiveDay {
    pub day_of_week: String,
    pub count: i64,
}

/// The tasks of one project, counted. The completion rate is the completed
/// tasks over all tasks; forming it is left to the caller.
#[derive(Debug)]
pub struct ProjectCounts {
    pub project_id: Option<String>,
    pub project_name: Option<String>,
    pub total_tasks: i64,
    pub completed_tasks: i64,
}

/// Whether a row of a name and a count can be read.
pub open spec fn count_row_readable(row: Seq<Cell>) -> bool {
    text_at(row, 0) is Some && int_at(row, 1) is Some
}

/// Reads a name and a count from the first two columns of a row.
pub fn named_count(row: &Vec<Cell>) -> (r: Option<(String, i64)>)
    ensures
        r is Some <==> count_row_readable(row@),
        r matches Some(pair) ==> Some(pair.0@) == text_at(row@, 0) && Some(pair.1 as int) == int_at(
            row@,
            1,
        ),
{
    let name = get_text(row, 0)?;
    let count = get_i64(row, 1)?;
    Some((name, count))
}

/// The completions per day read from `rows`, or the message for the first row
/// that cannot be read.
pub fn completion_stats_from_rows(rows: &Vec<Vec<Cell>>) -> (r: Result<Vec<CompletionStats>, String>)
    ensures
        r is Ok <==> forall|i: int| 0 <= i < rows@.len() ==> count_row_readable(#[trigger] rows@[i]@),
        r matches Ok(list) ==> list@.len() == rows@.len(),
        r matches Err(message) ==> begins_with(message@, "Row parsing error: "@),
{
    let mut list: Vec<CompletionStats> = Vec::new();
    let mut i: usize = 0;
    while i < rows.len()
        invariant
            i <= rows@.len(),
            list@.len() == i,
            forall|j: int| 0 <= j < i ==> count_row_readable(#[trigger] rows@[j]@),
        decreases rows@.len() - i,
    {
        match named_count(&rows[i]) {
            Some(found) => list.push(CompletionStats { date: found.0, count: found.1 }),
            None => {
                return Err(concat("Row parsing error: ", BAD_ROW));
            },
        }
        i += 1;
    }
    Ok(list)
}

/// The tasks per priority read from `rows`, or the message for the first row
/// that cannot be read.
pub fn priority_distribution_from_rows(rows: &Vec<Vec<Cell>>) -> (r: Result<Vec<PriorityDistribution>, String>)
    ensures
        r is Ok <==> forall|i: int| 0 <= i < rows@.len() ==> count_row_readable(#[trigger] rows@[i]@),
        r matches Ok(list) ==> list@.len() == rows@.len(),
        r matches Err(message) ==> begins_with(message@, "Row parsing error: "@),
{
    let mut list: Vec<PriorityDistribution> = Vec::new();
    let mut i: usize = 0;
    while i < rows.len()
        invariant
            i <= rows@.len(),
            list@.len() == i,
            forall|j: int| 0 <= j < i ==> count_row_readable(#[trigger] rows@[j]@),
        decreases rows@.len() - i,
    {
        match named_count(&rows[i]) {
            Some(found) => list.push(PriorityDistribution { priority: found.0, count: found.1 }),
            None => {
                return Err(concat("Row parsing error: ", BAD_ROW));
            },
        }
        i += 1;
    }
    Ok(list)
}

/// The counts per project read from `rows`, or the message for the first row
/// that cannot be read.
pub fn project_counts_from_rows(rows: &Vec<Vec<Cell>>) -> (r: Result<Vec<ProjectCounts>, String>)
    ensures
        r is Ok <==> forall|i: int| 0 <= i < rows@.len() ==> project_counts_readable(#[trigger] rows@[i]@),
        r matches Ok(list) ==> list@.len() == rows@.len(),
        r matches Err(message) ==> begins_with(message@, "Row parsing error: "@),
{
    let mut list: Vec<ProjectCounts> = Vec::new();
    let mut i: usize = 0;
    while i < rows.len()
        invariant
            i <= rows@.len(),
            list@.len() == i,
            forall|j: int| 0 <= j < i ==> project_counts_readable(#[trigger] rows@[j]@),
        decreases rows@.len() - i,
    {
        match project_counts_from_row(&rows[i]) {
            Some(found) => list.push(found),
            None => {
                return Err(concat("Row parsing error: ", BAD_ROW));
            },
        }
        i += 1;
    }
    Ok(list)
}

/// The time from which the completions of the last `days` days count: `days`
/// days before `now`, held inside the range of `i64`.
pub fn window_start(now: i64, days: i32) -> (start: i64)
    ensures
        start == shifted(now as int, -(days * 86400)),
{
    shift(now, -(days as i64 * 86400))
}

/// The tasks completed in the last `days` days, counted by day.
pub fn get_completion_stats(conn: &Connection, days: i32) -> (r: Result<
    Vec<CompletionStats>,
    String,
>)
    ensures
        r matches Err(message) ==> listing_failure(message@),
{
    let mut params: Vec<SqlValue> = Vec::new();
    params.push(SqlValue::Integer(window_start(now(), days)));
    let rows = match query_rows(
        conn,
        "SELECT 
                date(completed_at, 'unixepoch', 'localtime') as completion_date,
                COUNT(*) as count
            FROM tasks
            WHERE completed_at IS NOT NULL 
                AND completed_at >= ?1
            GROUP BY completion_date
            ORDER BY completion_date",
        &params,
    ) {
        Ok(rows) => rows,
        Err(e) => {
            return Err(listing_error(&e));
        },
    };
    completion_stats_from_rows(&rows)
}

/// The tasks counted by priority: high first, then medium, then low, then
/// the rest.
pub fn get_priority_distribution(conn: &Connection) -> (r: Result<
    Vec<PriorityDistribution>,
    String,
>)
    ensures
        r matches Err(message) ==> listing_failure(message@),
{
    let none: Vec<SqlValue> = Vec::new();
    let rows = match query_rows(
        conn,
        "SELECT priority, COUNT(*) as count
            FROM tasks
            GROUP BY priority
            ORDER BY 
                CASE priority
                    WHEN 'high' THEN 1
                    WHEN 'medium' THEN 2
                    WHEN 'low' THEN 3
                    ELSE 4
                END",
        &none,
    ) {
        Ok(rows) => rows,
        Err(e) => {
            return Err(listing_error(&e));
        },
    };
    priority_distribution_from_rows(&rows)
}

/// Whether a row of the per-project query can be read.
pub open spec fn project_counts_readable(row: Seq<Cell>) -> bool {
    &&& opt_text_at(row, 0) is Some
    &&& opt_text_at(row, 1) is Some
    &&& int_at(row, 2) is Some
    &&& int_at(row, 3) is Some
}

/// Reads the counts of one project from a row of the columns project_id,
/// project_name, total, completed.
pub fn project_counts_from_row(row: &Vec<Cell>) -> (r: Option<ProjectCounts>)
    ensures
        r is Some <==> project_counts_readable(row@),
        r matches Some(c) ==> {
            &&& Some(opt_view(c.project_id)) == opt_text_at(row@, 0)
            &&& Some(opt_view(c.project_name)) == opt_text_at(row@, 1)
            &&& Some(c.total_tasks as int) == int_at(row@, 2)
            &&& Some(c.completed_tasks as int) == int_at(row@, 3)
        },
{
    let total_tasks = get_i64(row, 2)?;
    let completed_tasks = get_i64(row, 3)?;
    let project_id = get_opt_text(row, 0)?;
    let project_name = get_opt_text(row, 1)?;
    Some(ProjectCounts { project_id, project_name, total_tasks, completed_tasks })
}

/// The tasks counted by project, the project with the most tasks first.
pub fn project_counts(conn: &Connection) -> (r: Result<Vec<ProjectCounts>, String>)
    ensures
        r matches Err(message) ==> listing_failure(message@),
{
    let none: Vec<SqlValue> = Vec::new();
    let rows = match query_rows(
        conn,
        "SELECT 
                t.project_id,
                p.name as project_name,
                COUNT(*) as total_tasks,
                SUM(CASE WHEN t.completed_at IS NOT NULL THEN 1 ELSE 0 END) as completed_tasks
            FROM tasks t
            LEFT JOIN projects p ON t.project_id = p.id
            GROUP BY t.project_id, p.name
            ORDER BY total_tasks DESC",
        &none,
    ) {
        Ok(rows) => rows,
        Err(e) => {
            return Err(listing_error(&e));
        },
    };
    project_counts_from_rows(&rows)
}

/// The day of the week on which most tasks were completed; none where no
/// task was completed yet.
pub fn get_most_productive_day(conn: &Connection) -> (r: Result<Option<MostProductiveDay>, String>)
    ensures
        r matches Err(message) ==> begins_with(message@, "Query error: "@)
            || begins_with(message@, "Query execution error: "@),
{
    let none: Vec<SqlValue> = Vec::new();
    match first_row(
        conn,
        "SELECT 
                CASE CAST(strftime('%w', datetime(completed_at, 'unixepoch', 'localtime')) AS INTEGER)
                    WHEN 0 THEN 'Sunday'
                    WHEN 1 THEN 'Monday'
                    WHEN 2 THEN 'Tuesday'
                    WHEN 3 THEN 'Wednesday'
                    WHEN 4 THEN 'Thursday'
                    WHEN 5 THEN 'Friday'
                    WHEN 6 THEN 'Saturday'
                    ELSE 'Unknown'
                END as day_of_week,
                COUNT(*) as count
            FROM tasks
            WHERE completed_at IS NOT NULL
            GROUP BY day_of_week
            ORDER BY count DESC
            LIMIT 1",
        &none,
    ) {
        Ok(Some(row)) => match named_count(&row) {
            Some((day_of_week, count)) => Ok(Some(MostProductiveDay { day_of_week, count })),
            None => Err(concat("Query execution error: ", BAD_ROW)),
        },
        Ok(None) => Ok(None),
        Err(e) => Err(describe_error("Query error: ", &e)),
    }
}

} // verus!
