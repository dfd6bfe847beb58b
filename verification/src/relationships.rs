//! Relationships between tasks: which are related, and which block which.

use vstd::prelude::*;
use crate::text::begins_with;
use crate::error::listing_failure;
use rusqlite::Connection;
use crate::clock::now;
use crate::db::DbConnection;
use crate::ids::new_id;
use crate::rows::first_row;
use crate::rows::get_i64;
use crate::error::describe_error;
use crate::error::listing_error;
use crate::error::written;
use crate::error::error_mentions;
use crate::sqlite::execute_with;
use crate::sqlite::query_rows;
use crate::sqlite::SqlValue;
use crate::statement::bind_text;
use crate::tasks::tasks_with_tags_strict;
use crate::tasks::Task;
use crate::text::str_eq;
use crate::rows::single_row;
use crate::rows::read_or;
use crate::rows::counted;

verus! {

/// A relationship between two tasks. In a relationship of the kind `blocks`
/// the first task blocks the second.
#[derive(Debug, Clone)]
pub struct TaskRelationship {
    pub id: String,
    pub task_id_1: String,
    pub task_id_2: String,
    pub relationship_type: String,
    pub created_at: i64,
}

/// What the user enters to relate two tasks.
#[derive(Debug)]
pub struct CreateRelationshipInput {
    pub task_id_1: String,
    pub task_id_2: String,
    pub relationship_type: Option<String>,
}

/// What is said of a relationship of a task with itself.
pub open spec fn self_relation_message() -> Seq<char> {
    "Cannot create relationship between a task and itself"@
}

/// What is said of a blocking relationship that the dependency check
/// refuses.
pub open spec fn circle_message() -> Seq<char> {
    "Cannot create blocking relationship: would create circular dependency"@
}

/// The kind of a relationship: the one the input names, or `related`.
pub open spec fn kind_of(input: CreateRelationshipInput) -> Seq<char> {
    match input.relationship_type {
        Some(kind) => kind@,
        None => "related"@,
    }
}

/// The dependency check for a new blocking relationship: whether
/// `blocking_task_id` is found when the chain of blockers is followed from
/// `blocked_task_id`, from each task to the tasks that block it, up to a
/// hundred steps. The chain starts with `blocked_task_id` itself.
pub fn check_circular_dependency_internal(
    conn: &Connection,
    blocking_task_id: &str,
    blocked_task_id: &str,
) -> (r: Result<bool, String>)
    ensures
        r matches Err(message) ==> begins_with(message@, "Failed to check circular dependency: "@),
{
    let mut params: Vec<SqlValue> = Vec::new();
    params.push(bind_text(blocked_task_id));
    params.push(bind_text(blocking_task_id));
    let row = single_row(
        first_row(
            conn,
            "
        WITH RECURSIVE dependency_chain(task_id, depth) AS (
            SELECT ?1 AS task_id, 0 AS depth
            UNION ALL
            SELECT tr.task_id_1, dc.depth + 1
            FROM task_relationships tr
            INNER JOIN dependency_chain dc ON tr.task_id_2 = dc.task_id
            WHERE tr.relationship_type = 'blocks' AND dc.depth < 100
        )
        SELECT COUNT(*) FROM dependency_chain WHERE task_id = ?2
    ",
            &params,
        ),
        "Failed to check circular dependency: ",
    )?;
    Ok(counted(read_or(get_i64(&row, 0), "Failed to check circular dependency: ")?))
}

/// The dependency check for a new blocking relationship (see
/// [`check_circular_dependency_internal`]).
pub fn check_circular_dependency(
    db: &DbConnection,
    blocking_task_id: String,
    blocked_task_id: String,
) -> (r: Result<bool, String>)
    ensures
        r matches Err(message) ==> begins_with(message@, "Failed to check circular dependency: "@),
{
    check_circular_dependency_internal(
        &db.conn,
        blocking_task_id.as_str(),
        blocked_task_id.as_str(),
    )
}

/// Relates two tasks. A task cannot be related to itself, and that is
/// rejected before the database is asked. A relationship of the kind
/// `blocks` is rejected where the dependency check finds the first task
/// among the blockers of the second. On success the
/// relationship handed back is between the two tasks of the input, of the
/// kind of the input, `related` where it names none.
pub fn create_task_relationship(db: &DbConnection, input: CreateRelationshipInput) -> (r: Result<
    TaskRelationship,
    String,
>)
    ensures
        r matches Err(message) ==> message@ == self_relation_message()
            || message@ == circle_message()
            || message@ == "Relationship already exists between these tasks"@
            || begins_with(message@, "Failed to check circular dependency: "@)
            || begins_with(message@, "Failed to create task relationship: "@),
        input.task_id_1@ == input.task_id_2@ ==> r is Err && r->Err_0@ == self_relation_message(),
        r matches Ok(made) ==> {
            &&& input.task_id_1@ != input.task_id_2@
            &&& made.task_id_1@ == input.task_id_1@
            &&& made.task_id_2@ == input.task_id_2@
            &&& made.relationship_type@ == kind_of(input)
        },
{
    if str_eq(input.task_id_1.as_str(), input.task_id_2.as_str()) {
        return Err("Cannot create relationship between a task and itself".to_string());
    }
    let id = new_id();
    let created_at = now();
    let relationship_type = match &input.relationship_type {
        Some(kind) => kind.clone(),
        None => "related".to_string(),
    };
    if str_eq(relationship_type.as_str(), "blocks") {
        if check_circular_dependency_internal(
            &db.conn,
            input.task_id_1.as_str(),
            input.task_id_2.as_str(),
        )? {
            return Err(
                "Cannot create blocking relationship: would create circular dependency".to_string(),
            );
        }
    }
    let mut params: Vec<SqlValue> = Vec::new();
    params.push(bind_text(id.as_str()));
    params.push(bind_text(input.task_id_1.as_str()));
    params.push(bind_text(input.task_id_2.as_str()));
    params.push(bind_text(relationship_type.as_str()));
    params.push(SqlValue::Integer(created_at));
    match execute_with(
        &db.conn,
        "INSERT INTO task_relationships (id, task_id_1, task_id_2, relationship_type, created_at) 
         VALUES (?1, ?2, ?3, ?4, ?5)",
        &params,
    ) {
        Ok(_) => Ok(
            TaskRelationship {
                id,
                task_id_1: input.task_id_1,
                task_id_2: input.task_id_2,
                relationship_type,
                created_at,
            },
        ),
        Err(e) => {
            if error_mentions(&e, "UNIQUE constraint failed") {
                Err("Relationship already exists between these tasks".to_string())
            } else {
                Err(describe_error("Failed to create task relationship: ", &e))
            }
        },
    }
}

/// Removes the relationship `relationship_id`.
pub fn delete_task_relationship(db: &DbConnection, relationship_id: String) -> (r: Result<
    (),
    String,
>)
    ensures
        r matches Err(message) ==> begins_with(message@, "Failed to delete task relationship: "@),
{
    let mut params: Vec<SqlValue> = Vec::new();
    params.push(SqlValue::Text(relationship_id));
    written(
        execute_with(
            &db.conn,
            "DELETE FROM task_relationships WHERE id = ?1",
            &params,
        ),
        "Failed to delete task relationship: ",
    )
}

/// Runs a task listing that binds the one task `task_id`.
fn related_listing(db: &DbConnection, sql: &str, task_id: String) -> (r: Result<Vec<Task>, String>)
    ensures
        r matches Err(message) ==> listing_failure(message@),
        r matches Ok(tasks) ==> forall|i: int|
            0 <= i < tasks@.len() ==> (#[trigger] tasks@[i]).tags is Some,
{
    let mut params: Vec<SqlValue> = Vec::new();
    params.push(SqlValue::Text(task_id));
    match query_rows(&db.conn, sql, &params) {
        Ok(rows) => tasks_with_tags_strict(&db.conn, &rows),
        Err(e) => Err(listing_error(&e)),
    }
}

/// The tasks that have a relationship with the task `task_id`, whichever
/// way round, by position and then by age.
pub fn get_related_tasks(db: &DbConnection, task_id: String) -> (r: Result<Vec<Task>, String>)
    ensures
        r matches Err(message) ==> listing_failure(message@),
        r matches Ok(tasks) ==> forall|i: int|
            0 <= i < tasks@.len() ==> (#[trigger] tasks@[i]).tags is Some,
{
    related_listing(
        db,
        "SELECT DISTINCT t.id, t.title, t.description, t.due_at, t.created_at, t.updated_at, t.priority, 
         t.completed_at, t.project_id, t.order_index, t.metadata, t.recurrence_type, 
         t.recurrence_interval, t.recurrence_parent_id, t.reminder_minutes_before, t.notification_repeat
         FROM tasks t
         WHERE t.id IN (
            SELECT task_id_2 FROM task_relationships WHERE task_id_1 = ?1
            UNION
            SELECT task_id_1 FROM task_relationships WHERE task_id_2 = ?1
         )
         ORDER BY t.order_index, t.created_at",
        task_id,
    )
}

/// The tasks that block the task `task_id`, by position and then by age.
pub fn get_blocking_tasks(db: &DbConnection, task_id: String) -> (r: Result<Vec<Task>, String>)
    ensures
        r matches Err(message) ==> listing_failure(message@),
        r matches Ok(tasks) ==> forall|i: int|
            0 <= i < tasks@.len() ==> (#[trigger] tasks@[i]).tags is Some,
{
    related_listing(
        db,
        "SELECT DISTINCT t.id, t.title, t.description, t.due_at, t.created_at, t.updated_at, t.priority, 
         t.completed_at, t.project_id, t.order_index, t.metadata, t.recurrence_type, 
         t.recurrence_interval, t.recurrence_parent_id, t.reminder_minutes_before, t.notification_repeat
         FROM tasks t
         INNER JOIN task_relationships tr ON t.id = tr.task_id_1
         WHERE tr.task_id_2 = ?1 AND tr.relationship_type = 'blocks'
         ORDER BY t.order_index, t.created_at",
        task_id,
    )
}

/// The tasks that the task `task_id` blocks, by position and then by age.
pub fn get_blocked_tasks(db: &DbConnection, task_id: String) -> (r: Result<Vec<Task>, String>)
    ensures
        r matches Err(message) ==> listing_failure(message@),
        r matches Ok(tasks) ==> forall|i: int|
            0 <= i < tasks@.len() ==> (#[trigger] tasks@[i]).tags is Some,
{
    related_listing(
        db,
        "SELECT DISTINCT t.id, t.title, t.description, t.due_at, t.created_at, t.updated_at, t.priority, 
         t.completed_at, t.project_id, t.order_index, t.metadata, t.recurrence_type, 
         t.recurrence_interval, t.recurrence_parent_id, t.reminder_minutes_before, t.notification_repeat
         FROM tasks t
         INNER JOIN task_relationships tr ON t.id = tr.task_id_2
         WHERE tr.task_id_1 = ?1 AND tr.relationship_type = 'blocks'
         ORDER BY t.order_index, t.created_at",
        task_id,
    )
}

} // verus!
