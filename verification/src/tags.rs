//! Tags: their names, their use on tasks, and the tasks that carry them.

use vstd::prelude::*;
use crate::text::begins_with;
use crate::error::listing_failure;
use vstd::string::StringExecFns;
use crate::clock::now;
use crate::db::DbConnection;
use crate::ids::new_id;
use crate::rows::first_row;
use crate::rows::BAD_ROW;
use crate::error::describe_error;
use crate::error::listing_error;
use crate::error::written;
use crate::error::error_mentions;
use crate::sqlite::execute_with;
use crate::sqlite::query_rows;
use crate::sqlite::Cell;
use crate::sqlite::Datum;
use crate::sqlite::SqlValue;
use crate::sqlite::values;
use crate::statement::bind_opt_text;
use crate::statement::bind_text;
use crate::statement::push_param;
use crate::statement::Statement;
use crate::tasks::fetch_task_tags;
use crate::tasks::tag_from_row;
use crate::tasks::tag_row_readable;
use crate::tasks::tasks_with_tags_strict;
use crate::tasks::Tag;
use crate::tasks::Task;
use crate::text::concat;
use crate::text::join;
use crate::text::joined;
use crate::text::lowercase;
use crate::text::texts;
use crate::text::to_lowercase;
use crate::text::trim;
use crate::text::trimmed;

verus! {

/// What the user enters to create a tag.
#[derive(Debug)]
pub struct CreateTagInput {
    pub name: String,
    pub color: Option<String>,
}

/// The form in which a tag's name is stored and looked up: without white
/// space at its ends, in lowercase.
pub open spec fn normalized(name: Seq<char>) -> Seq<char> {
    lowercase(trimmed(name))
}

/// The form in which a tag's name is stored and looked up.
pub fn normalize(name: &str) -> (stored: String)
    ensures
        stored@ == normalized(name@),
{
    to_lowercase(trim(name))
}

/// The tags read from `rows`, or the message for the first row that cannot
/// be read.
pub fn tags_from_rows_strict(rows: &Vec<Vec<Cell>>) -> (r: Result<Vec<Tag>, String>)
    ensures
        r matches Err(message) ==> begins_with(message@, "Row parsing error: "@),
        r is Ok <==> forall|i: int| 0 <= i < rows@.len() ==> tag_row_readable(#[trigger] rows@[i]@),
        r matches Ok(list) ==> list@.len() == rows@.len(),
{
    let mut list: Vec<Tag> = Vec::new();
    let mut i: usize = 0;
    while i < rows.len()
        invariant
            i <= rows@.len(),
            list@.len() == i,
            forall|j: int| 0 <= j < i ==> tag_row_readable(#[trigger] rows@[j]@),
        decreases rows@.len() - i,
    {
        match tag_from_row(&rows[i]) {
            Some(tag) => list.push(tag),
            None => {
                return Err(concat("Row parsing error: ", BAD_ROW));
            },
        }
        i += 1;
    }
    Ok(list)
}

/// All tags, the most used first, then by name.
pub fn get_all_tags(db: &DbConnection) -> (r: Result<Vec<Tag>, String>)
    ensures
        r matches Err(message) ==> listing_failure(message@),
{
    let none: Vec<SqlValue> = Vec::new();
    match query_rows(
        &db.conn,
        "SELECT id, name, color, created_at, usage_count FROM tags ORDER BY usage_count DESC, name",
        &none,
    ) {
        Ok(rows) => tags_from_rows_strict(&rows),
        Err(e) => Err(listing_error(&e)),
    }
}

/// The tags of the task `task_id`, by name. The call never fails.
pub fn get_task_tags(db: &DbConnection, task_id: String) -> (r: Result<Vec<Tag>, String>)
    ensures
        r is Ok,
{
    fetch_task_tags(&db.conn, task_id.as_str())
}

/// What is said of a tag without a name.
pub open spec fn empty_name_message() -> Seq<char> {
    "Tag name cannot be empty"@
}

/// Creates the tag of the given name, normalized, or hands back the tag that
/// already has that name. A name that is empty once normalized is rejected,
/// and only such a name is rejected before the database is asked.
pub fn create_tag(db: &DbConnection, input: CreateTagInput) -> (r: Result<Tag, String>)
    ensures
        r matches Err(message) ==> message@ == empty_name_message()
            || begins_with(message@, "Failed to create tag: "@),
        normalized(input.name@).len() == 0 ==> r is Err && r->Err_0@ == empty_name_message(),
        r matches Ok(tag) ==> normalized(input.name@).len() > 0,
{
    let name = normalize(input.name.as_str());
    if name.as_str().unicode_len() == 0 {
        return Err("Tag name cannot be empty".to_string());
    }
    let mut lookup: Vec<SqlValue> = Vec::new();
    lookup.push(bind_text(name.as_str()));
    if let Ok(Some(row)) = first_row(
        &db.conn,
        "SELECT id, name, color, created_at, usage_count FROM tags WHERE name = ?1",
        &lookup,
    ) {
        if let Some(tag) = tag_from_row(&row) {
            return Ok(tag);
        }
    }
    let id = new_id();
    let created_at = now();
    let mut params: Vec<SqlValue> = Vec::new();
    params.push(bind_text(id.as_str()));
    params.push(bind_text(name.as_str()));
    params.push(bind_opt_text(&input.color));
    params.push(SqlValue::Integer(created_at));
    match execute_with(
        &db.conn,
        "INSERT INTO tags (id, name, color, created_at, usage_count) VALUES (?1, ?2, ?3, ?4, 0)",
        &params,
    ) {
        Ok(_) => Ok(Tag { id, name, color: input.color, created_at, usage_count: 0 }),
        Err(e) => Err(describe_error("Failed to create tag: ", &e)),
    }
}

/// Removes the tag `tag_id`; its links to tasks go with it.
pub fn delete_tag(db: &DbConnection, tag_id: String) -> (r: Result<(), String>)
    ensures
        r matches Err(message) ==> begins_with(message@, "Failed to delete tag: "@),
{
    let mut params: Vec<SqlValue> = Vec::new();
    params.push(SqlValue::Text(tag_id));
    written(
        execute_with(
            &db.conn,
            "DELETE FROM tags WHERE id = ?1",
            &params,
        ),
        "Failed to delete tag: ",
    )
}

/// Puts the tag `tag_id` on the task `task_id` and counts the use. A tag
/// that is on the task already stays there, and the call succeeds.
pub fn add_tag_to_task(db: &DbConnection, task_id: String, tag_id: String) -> (r: Result<
    (),
    String,
>)
    ensures
        r matches Err(message) ==> begins_with(message@, "Failed to update tag usage count: "@)
            || begins_with(message@, "Failed to add tag to task: "@),
{
    let mut params: Vec<SqlValue> = Vec::new();
    params.push(SqlValue::Text(new_id()));
    params.push(SqlValue::Text(task_id));
    params.push(bind_text(tag_id.as_str()));
    params.push(SqlValue::Integer(now()));
    match execute_with(
        &db.conn,
        "INSERT INTO task_tags (id, task_id, tag_id, created_at) VALUES (?1, ?2, ?3, ?4)",
        &params,
    ) {
        Ok(_) => {
            let mut used: Vec<SqlValue> = Vec::new();
            used.push(SqlValue::Text(tag_id));
            written(
                execute_with(
                    &db.conn,
                    "UPDATE tags SET usage_count = usage_count + 1 WHERE id = ?1",
                    &used,
                ),
                "Failed to update tag usage count: ",
            )
        },
        Err(e) => {
            if error_mentions(&e, "UNIQUE constraint failed") {
                Ok(())
            } else {
                Err(describe_error("Failed to add tag to task: ", &e))
            }
        },
    }
}

/// Takes the tag `tag_id` off the task `task_id`, and counts one use less
/// where it was on it.
pub fn remove_tag_from_task(db: &DbConnection, task_id: String, tag_id: String) -> (r: Result<
    (),
    String,
>)
    ensures
        r matches Err(message) ==> begins_with(message@, "Failed to remove tag from task: "@)
            || begins_with(message@, "Failed to update tag usage count: "@),
{
    let mut params: Vec<SqlValue> = Vec::new();
    params.push(SqlValue::Text(task_id));
    params.push(bind_text(tag_id.as_str()));
    let removed = match execute_with(
        &db.conn,
        "DELETE FROM task_tags WHERE task_id = ?1 AND tag_id = ?2",
        &params,
    ) {
        Ok(count) => count,
        Err(e) => {
            return Err(describe_error("Failed to remove tag from task: ", &e));
        },
    };
    if removed > 0 {
        let mut used: Vec<SqlValue> = Vec::new();
        used.push(SqlValue::Text(tag_id));
        if let Err(e) = execute_with(
            &db.conn,
            "UPDATE tags SET usage_count = MAX(0, usage_count - 1) WHERE id = ?1",
            &used,
        ) {
            return Err(describe_error("Failed to update tag usage count: ", &e));
        }
    }
    Ok(())
}

/// The pattern that finds the normalized form of `search` anywhere in a
/// tag's name.
pub fn suggestion_pattern(search: &str) -> (pattern: String)
    ensures
        pattern@ == "%"@ + normalized(search@) + "%"@,
{
    let mut pattern = concat("%", normalize(search).as_str());
    pattern.append("%");
    pattern
}

/// Up to ten tags whose names contain `search`, the most used first.
pub fn get_suggested_tags(db: &DbConnection, search: String) -> (r: Result<Vec<Tag>, String>)
    ensures
        r matches Err(message) ==> listing_failure(message@),
{
    let mut params: Vec<SqlValue> = Vec::new();
    params.push(SqlValue::Text(suggestion_pattern(search.as_str())));
    match query_rows(
        &db.conn,
        "SELECT id, name, color, created_at, usage_count FROM tags 
         WHERE name LIKE ?1 
         ORDER BY usage_count DESC, name 
         LIMIT 10",
        &params,
    ) {
        Ok(rows) => tags_from_rows_strict(&rows),
        Err(e) => Err(listing_error(&e)),
    }
}

/// The tasks that carry the tag `tag_id`, by position and then by age.
pub fn get_tasks_by_tag(db: &DbConnection, tag_id: String) -> (r: Result<Vec<Task>, String>)
    ensures
        r matches Err(message) ==> listing_failure(message@),
        r matches Ok(tasks) ==> forall|i: int|
            0 <= i < tasks@.len() ==> (#[trigger] tasks@[i]).tags is Some,
{
    let mut params: Vec<SqlValue> = Vec::new();
    params.push(SqlValue::Text(tag_id));
    match query_rows(
        &db.conn,
        "SELECT t.id, t.title, t.description, t.due_at, t.created_at, t.updated_at, t.priority, 
         t.completed_at, t.project_id, t.order_index, t.metadata, t.recurrence_type, 
         t.recurrence_interval, t.recurrence_parent_id, t.reminder_minutes_before, t.notification_repeat
         FROM tasks t
         INNER JOIN task_tags tt ON t.id = tt.task_id
         WHERE tt.tag_id = ?1
         ORDER BY t.order_index, t.created_at",
        &params,
    ) {
        Ok(rows) => tasks_with_tags_strict(&db.conn, &rows),
        Err(e) => Err(listing_error(&e)),
    }
}

/// The list of `count` placeholders.
pub open spec fn placeholders(count: nat) -> Seq<Seq<char>> {
    Seq::new(count, |i: int| "?"@)
}

/// The text of the listing of the tasks that carry one of `count` tags.
pub open spec fn tasks_by_tags_sql(count: nat) -> Seq<char> {
    "SELECT DISTINCT t.id, t.title, t.description, t.due_at, t.created_at, t.updated_at, t.priority, 
         t.completed_at, t.project_id, t.order_index, t.metadata, t.recurrence_type, 
         t.recurrence_interval, t.recurrence_parent_id, t.reminder_minutes_before, t.notification_repeat
         FROM tasks t
         INNER JOIN task_tags tt ON t.id = tt.task_id
         WHERE tt.tag_id IN ("@
        + joined(placeholders(count), ", "@) + ")
         ORDER BY t.order_index, t.created_at"@
}

/// The listing of the tasks that carry at least one of the tags `tag_ids`:
/// one placeholder for each tag, and the tags bound in order.
pub fn tasks_by_tags_query(tag_ids: &Vec<String>) -> (statement: Statement)
    ensures
        statement@.sql == tasks_by_tags_sql(tag_ids@.len()),
        statement@.params.len() == tag_ids@.len(),
        forall|i: int|
            0 <= i < tag_ids@.len() ==> #[trigger] statement@.params[i] == Datum::Text(
                tag_ids@[i]@,
            ),
{
    let mut marks: Vec<String> = Vec::new();
    let mut params: Vec<SqlValue> = Vec::new();
    let mut i: usize = 0;
    assert(texts(marks@) =~= placeholders(0));
    while i < tag_ids.len()
        invariant
            i <= tag_ids@.len(),
            texts(marks@) == placeholders(i as nat),
            values(params@).len() == i,
            forall|k: int| 0 <= k < i ==> #[trigger] values(params@)[k] == Datum::Text(tag_ids@[k]@),
        decreases tag_ids@.len() - i,
    {
        let ghost before = marks@;
        marks.push("?".to_string());
        assert(texts(marks@) =~= texts(before).push("?"@));
        assert(texts(marks@) =~= placeholders((i + 1) as nat));
        push_param(&mut params, bind_text(tag_ids[i].as_str()));
        i += 1;
    }
    let mut sql =
        "SELECT DISTINCT t.id, t.title, t.description, t.due_at, t.created_at, t.updated_at, t.priority, 
         t.completed_at, t.project_id, t.order_index, t.metadata, t.recurrence_type, 
         t.recurrence_interval, t.recurrence_parent_id, t.reminder_minutes_before, t.notification_repeat
         FROM tasks t
         INNER JOIN task_tags tt ON t.id = tt.task_id
         WHERE tt.tag_id IN (".to_string();
    sql.append(join(&marks, ", ").as_str());
    sql.append(")
         ORDER BY t.order_index, t.created_at");
    Statement { sql, params }
}

/// The tasks that carry at least one of the tags `tag_ids`, by position and
/// then by age. Without tags there are no such tasks, and the database is
/// not asked.
pub fn get_tasks_by_tags(db: &DbConnection, tag_ids: Vec<String>) -> (r: Result<Vec<Task>, String>)
    ensures
        r matches Err(message) ==> listing_failure(message@),
        tag_ids@.len() == 0 ==> r is Ok && r->Ok_0@.len() == 0,
        r matches Ok(tasks) ==> forall|i: int|
            0 <= i < tasks@.len() ==> (#[trigger] tasks@[i]).tags is Some,
{
    if tag_ids.len() == 0 {
        return Ok(Vec::new());
    }
    let statement = tasks_by_tags_query(&tag_ids);
    match query_rows(&db.conn, statement.sql.as_str(), &statement.params) {
        Ok(rows) => tasks_with_tags_strict(&db.conn, &rows),
        Err(e) => Err(listing_error(&e)),
    }
}

} // verus!
