//! Subtasks: the steps of a task.

use vstd::prelude::*;
use crate::text::begins_with;
use crate::error::listing_failure;
use crate::db::DbConnection;
use crate::ids::new_id;
use crate::rows::first_row;
use crate::rows::get_i32;
use crate::rows::get_text;
use crate::rows::small_at;
use crate::rows::text_at;
use crate::rows::BAD_ROW;
use crate::error::describe_error;
use crate::error::listing_error;
use crate::error::written;
use crate::sqlite::execute_with;
use crate::sqlite::query_rows;
use crate::sqlite::Cell;
use crate::sqlite::SqlValue;
use crate::statement::assigned_clauses;
use crate::statement::assignments;
use crate::statement::bind_text;
use crate::statement::update_spec;
use crate::statement::update_statement;
use crate::statement::Assignment;
use crate::statement::AssignmentSpec;
use crate::statement::Statement;
use crate::tasks::assign_flag;
use crate::tasks::assign_text;
use crate::tasks::assigned_flag;
use crate::tasks::assigned_text;
use crate::text::concat;
use crate::sqlite::values;
use crate::sqlite::Datum;
use crate::rows::single_row;
use crate::rows::read_or;

verus! {

/// One step of a task.
#[derive(Debug, Clone)]
pub struct Subtask {
    pub id: String,
    pub task_id: String,
    pub title: String,
    pub completed: bool,
}

/// Whether a subtask row can be read.
pub open spec fn subtask_row_readable(row: Seq<Cell>) -> bool {
    &&& text_at(row, 0) is Some
    &&& text_at(row, 1) is Some
    &&& text_at(row, 2) is Some
    &&& small_at(row, 3) is Some
}

/// Whether `s` holds what `row` holds: each field is what its column
/// gives.
pub open spec fn subtask_reads(s: Subtask, row: Seq<Cell>) -> bool {
    &&& Some(s.id@) == text_at(row, 0)
    &&& Some(s.task_id@) == text_at(row, 1)
    &&& Some(s.title@) == text_at(row, 2)
    &&& s.completed == (small_at(row, 3)->0 != 0)
}

/// Reads a subtask from a row of the columns id, task_id, title, completed.
/// The subtask is complete where the last column is not 0.
pub fn subtask_from_row(row: &Vec<Cell>) -> (r: Option<Subtask>)
    ensures
        r is Some <==> subtask_row_readable(row@),
        r matches Some(s) ==> subtask_reads(s, row@),
{
    let id = get_text(row, 0)?;
    let task_id = get_text(row, 1)?;
    let title = get_text(row, 2)?;
    let completed = get_i32(row, 3)?;
    Some(Subtask { id, task_id, title, completed: completed != 0 })
}

/// The subtasks read from `rows`, or the message for the first row that
/// cannot be read.
pub fn subtasks_from_rows(rows: &Vec<Vec<Cell>>) -> (r: Result<Vec<Subtask>, String>)
    ensures
        r matches Err(message) ==> begins_with(message@, "Row parsing error: "@),
        r is Ok <==> forall|i: int|
            0 <= i < rows@.len() ==> subtask_row_readable(#[trigger] rows@[i]@),
        r matches Ok(list) ==> list@.len() == rows@.len() && forall|i: int|
            0 <= i < list@.len() ==> subtask_reads(#[trigger] list@[i], rows@[i]@),
{
    let mut list: Vec<Subtask> = Vec::new();
    let mut i: usize = 0;
    while i < rows.len()
        invariant
            i <= rows@.len(),
            list@.len() == i,
            forall|j: int| 0 <= j < i ==> subtask_reads(#[trigger] list@[j], rows@[j]@),
            forall|j: int| 0 <= j < i ==> subtask_row_readable(#[trigger] rows@[j]@),
        decreases rows@.len() - i,
    {
        match subtask_from_row(&rows[i]) {
            Some(subtask) => list.push(subtask),
            None => {
                return Err(concat("Row parsing error: ", BAD_ROW));
            },
        }
        i += 1;
    }
    Ok(list)
}

/// Reads the subtask `id`; `prefix` is put before the reason of a failure.
fn read_subtask(db: &DbConnection, id: &str, prefix: &str) -> (r: Result<Subtask, String>)
    ensures
        r matches Err(message) ==> begins_with(message@, prefix@),
{
    let mut params: Vec<SqlValue> = Vec::new();
    params.push(bind_text(id));
    let row = single_row(
        first_row(
            &db.conn,
            "SELECT id, task_id, title, completed FROM subtasks WHERE id = ?1",
            &params,
        ),
        prefix,
    )?;
    read_or(subtask_from_row(&row), prefix)
}

/// The values bound to the insert of a new subtask: its id, its task, its
/// title, and 0 for "not completed".
pub open spec fn new_subtask_values(id: Seq<char>, task_id: Seq<char>, title: Seq<char>) -> Seq<
    Datum,
> {
    seq![Datum::Text(id), Datum::Text(task_id), Datum::Text(title), Datum::Integer(0)]
}

/// The values bound to the insert of a new subtask.
pub fn new_subtask_parameters(id: &str, task_id: String, title: String) -> (params: Vec<SqlValue>)
    ensures
        values(params@) == new_subtask_values(id@, task_id@, title@),
{
    let mut params: Vec<SqlValue> = Vec::new();
    params.push(bind_text(id));
    params.push(SqlValue::Text(task_id));
    params.push(SqlValue::Text(title));
    params.push(SqlValue::Integer(0));
    assert(values(params@) =~= new_subtask_values(id@, task_id@, title@));
    params
}

/// Adds an open subtask to the task `task_id` and hands the stored subtask
/// back.
pub fn add_subtask(db: &DbConnection, task_id: String, title: String) -> (r: Result<
    Subtask,
    String,
>)
    ensures
        r matches Err(message) ==> begins_with(message@, "Failed to create subtask: "@)
            || begins_with(message@, "Failed to fetch created subtask: "@),
{
    let id = new_id();
    let params = new_subtask_parameters(id.as_str(), task_id, title);
    if let Err(e) = execute_with(
        &db.conn,
        "INSERT INTO subtasks (id, task_id, title, completed) VALUES (?1, ?2, ?3, ?4)",
        &params,
    ) {
        return Err(describe_error("Failed to create subtask: ", &e));
    }
    read_subtask(db, id.as_str(), "Failed to fetch created subtask: ")
}

/// The assignments of a subtask update.
pub open spec fn subtask_assignments(title: Option<String>, completed: Option<bool>) -> Seq<
    AssignmentSpec,
> {
    seq![
        AssignmentSpec { clause: "title = ?"@, value: assigned_text(title) },
        AssignmentSpec { clause: "completed = ?"@, value: assigned_flag(completed) }
    ]
}

/// The statement that changes the subtask `id`; none where nothing is to
/// change.
pub fn subtask_update(id: &str, title: &Option<String>, completed: Option<bool>) -> (r: Option<
    Statement,
>)
    ensures
        match r {
            Some(statement) => Some(statement@) == update_spec(
                "UPDATE subtasks SET "@,
                subtask_assignments(*title, completed),
                None,
                id@,
            ),
            None => update_spec(
                "UPDATE subtasks SET "@,
                subtask_assignments(*title, completed),
                None,
                id@,
            ) is None,
        },
{
    let mut list: Vec<Assignment> = Vec::new();
    list.push(assign_text("title = ?", title));
    list.push(assign_flag("completed = ?", completed));
    assert(assignments(list@) =~= subtask_assignments(*title, completed));
    update_statement("UPDATE subtasks SET ", &list, None, id)
}

/// Changes the subtask `id` and hands the stored subtask back.
pub fn update_subtask(
    db: &DbConnection,
    id: String,
    title: Option<String>,
    completed: Option<bool>,
) -> (r: Result<Subtask, String>)
    ensures
        assigned_clauses(subtask_assignments(title, completed)).len() == 0 ==> (r matches Err(message)
            ==> begins_with(message@, "Subtask not found: "@)),
        r matches Err(message) ==> begins_with(message@, "Failed to update subtask: "@)
            || begins_with(message@, "Subtask not found: "@),
{
    if let Some(statement) = subtask_update(id.as_str(), &title, completed) {
        if let Err(e) = execute_with(&db.conn, statement.sql.as_str(), &statement.params) {
            return Err(describe_error("Failed to update subtask: ", &e));
        }
    }
    read_subtask(db, id.as_str(), "Subtask not found: ")
}

/// Removes the subtask `id`.
pub fn delete_subtask(db: &DbConnection, id: String) -> (r: Result<(), String>)
    ensures
        r matches Err(message) ==> begins_with(message@, "Failed to delete subtask: "@),
{
    let mut params: Vec<SqlValue> = Vec::new();
    params.push(SqlValue::Text(id));
    written(
        execute_with(
            &db.conn,
            "DELETE FROM subtasks WHERE id = ?1",
            &params,
        ),
        "Failed to delete subtask: ",
    )
}

/// The subtasks of the task `task_id`, by id.
pub fn get_subtasks(db: &DbConnection, task_id: String) -> (r: Result<Vec<Subtask>, String>)
    ensures
        r matches Err(message) ==> listing_failure(message@),
{
    let mut params: Vec<SqlValue> = Vec::new();
    params.push(SqlValue::Text(task_id));
    match query_rows(
        &db.conn,
        "SELECT id, task_id, title, completed FROM subtasks WHERE task_id = ?1 ORDER BY id",
        &params,
    ) {
        Ok(rows) => subtasks_from_rows(&rows),
        Err(e) => Err(listing_error(&e)),
    }
}

} // verus!
