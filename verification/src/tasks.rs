//! Tasks: how they are read from rows, how the statements that list, create
//! and change them are built, and what happens when one is completed.

use vstd::prelude::*;
use crate::text::begins_with;
use crate::error::listing_failure;
use vstd::string::StringExecFns;
use rusqlite::Connection;
use crate::clock::now;
use crate::db::DbConnection;
use crate::gamification::check_and_award_badges_internal;
use crate::gamification::completion_xp;
use crate::gamification::completion_xp_spec;
use crate::gamification::grant_xp_internal;
use crate::gamification::revoke_xp_internal;
use crate::gamification::update_streak_internal;
use crate::ids::new_id;
use crate::notifications::schedule_notification;
use crate::rows::count_of;
use crate::rows::counted;
use crate::rows::first_row;
use crate::rows::BAD_ROW;
use crate::rows::NO_ROWS;
use crate::error::describe_error;
use crate::error::listing_error;
use crate::error::written;
use crate::sqlite::execute_with;
use crate::sqlite::query_rows;
use crate::statement::assignments;
use crate::statement::update_statement;
use crate::statement::Assignment;
use crate::statement::AssignmentSpec;
use crate::statement::update_spec;
use crate::rows::get_i32;
use crate::rows::get_i64;
use crate::rows::get_opt_i32;
use crate::rows::get_opt_i64;
use crate::rows::get_opt_text;
use crate::rows::get_text;
use crate::rows::int_at;
use crate::rows::opt_int;
use crate::rows::opt_int_at;
use crate::rows::opt_small;
use crate::rows::opt_small_at;
use crate::rows::opt_text_at;
use crate::rows::opt_view;
use crate::rows::small_at;
use crate::rows::text_at;
use crate::numbers::shift;
use crate::numbers::shifted;
use crate::sqlite::Cell;
use crate::sqlite::Datum;
use crate::sqlite::SqlValue;
use crate::sqlite::values;
use crate::statement::append_clause;
use crate::statement::bind_flag;
use crate::statement::clause;
use crate::statement::opt_datum;
use crate::statement::opt_param;
use crate::statement::push_opt;
use crate::statement::bind_i32;
use crate::statement::bind_opt_i32;
use crate::statement::bind_opt_i64;
use crate::statement::bind_opt_text;
use crate::statement::bind_text;
use crate::statement::flag;
use crate::statement::int_or_null;
use crate::statement::small_or_null;
use crate::statement::text_or_null;
use crate::statement::Statement;
use crate::statement::StatementSpec;
use crate::text::concat;
use crate::text::str_eq;
use crate::rows::single_row;
use crate::rows::read_or;

verus! {

/// A label that tasks can carry.
#[derive(Debug, Clone)]
pub struct Tag {
    pub id: String,
    pub name: String,
    pub color: Option<String>,
    pub created_at: i64,
    pub usage_count: i32,
}

/// A task as the user interface sees it.
#[derive(Debug, Clone)]
pub struct Task {
    pub id: String,
    pub title: String,
    pub description: Option<String>,
    pub completed: bool,
    pub due_date: Option<i64>,
    pub priority: String,
    pub created_at: i64,
    pub updated_at: i64,
    pub project_id: Option<String>,
    pub order_index: i32,
    pub recurrence_type: String,
    pub recurrence_interval: i32,
    pub recurrence_parent_id: Option<String>,
    pub reminder_minutes_before: Option<i32>,
    pub notification_repeat: bool,
    pub tags: Option<Vec<Tag>>,
}

/// The conditions a listed task has to meet; a field left out is no condition.
#[derive(Debug)]
pub struct TaskFilter {
    pub project_id: Option<String>,
    pub completed: Option<bool>,
    pub due_before: Option<i64>,
    pub due_after: Option<i64>,
    pub search: Option<String>,
    pub tag_id: Option<String>,
}

/// What the user enters to create a task.
#[derive(Debug)]
pub struct CreateTaskInput {
    pub title: String,
    pub description: Option<String>,
    pub due_date: Option<i64>,
    pub priority: String,
    pub project_id: Option<String>,
    pub recurrence_type: Option<String>,
    pub recurrence_interval: Option<i32>,
    pub reminder_minutes_before: Option<i32>,
    pub notification_repeat: Option<bool>,
}

/// The fields of a task to change; a field left out stays as it is.
#[derive(Debug)]
pub struct UpdateTaskInput {
    pub title: Option<String>,
    pub description: Option<String>,
    pub due_date: Option<i64>,
    pub priority: Option<String>,
    pub project_id: Option<String>,
    pub order_index: Option<i32>,
    pub recurrence_type: Option<String>,
    pub recurrence_interval: Option<i32>,
    pub reminder_minutes_before: Option<i32>,
    pub notification_repeat: Option<bool>,
}

/// Whether a row of the tag query can be read: id, name, colour, creation
/// time and usage count are of their types.
pub open spec fn tag_row_readable(row: Seq<Cell>) -> bool {
    &&& text_at(row, 0) is Some
    &&& text_at(row, 1) is Some
    &&& opt_text_at(row, 2) is Some
    &&& int_at(row, 3) is Some
    &&& small_at(row, 4) is Some
}

/// Reads a tag from a row of the columns id, name, color, created_at,
/// usage_count.
pub fn tag_from_row(row: &Vec<Cell>) -> (r: Option<Tag>)
    ensures
        r is Some <==> tag_row_readable(row@),
        r matches Some(tag) ==> {
            &&& Some(tag.id@) == text_at(row@, 0)
            &&& Some(tag.name@) == text_at(row@, 1)
            &&& Some(opt_view(tag.color)) == opt_text_at(row@, 2)
            &&& Some(tag.created_at as int) == int_at(row@, 3)
            &&& Some(tag.usage_count as int) == small_at(row@, 4)
        },
{
    let id = get_text(row, 0)?;
    let name = get_text(row, 1)?;
    let color = get_opt_text(row, 2)?;
    let created_at = get_i64(row, 3)?;
    let usage_count = get_i32(row, 4)?;
    Some(Tag { id, name, color, created_at, usage_count })
}

/// The start of every task listing. It fixes the columns of a task row and
/// their order.
pub const TASK_LISTING: &'static str =
    "SELECT id, title, description, due_at, created_at, updated_at, priority, completed_at, project_id, order_index, metadata, recurrence_type, recurrence_interval, recurrence_parent_id, reminder_minutes_before, notification_repeat FROM tasks WHERE 1=1";

/// The end of every task listing: by position, then by age.
pub const TASK_ORDER: &'static str = " ORDER BY order_index, created_at";

/// Whether a task row can be read: the columns that a task cannot do
/// without are of their types.
pub open spec fn task_row_readable(row: Seq<Cell>) -> bool {
    &&& text_at(row, 0) is Some
    &&& text_at(row, 1) is Some
    &&& opt_text_at(row, 2) is Some
    &&& opt_int_at(row, 3) is Some
    &&& int_at(row, 4) is Some
    &&& int_at(row, 5) is Some
    &&& text_at(row, 6) is Some
    &&& opt_int_at(row, 7) is Some
    &&& opt_text_at(row, 8) is Some
}

/// Whether `task` holds what `row` holds: each field is what its column
/// gives.
pub open spec fn task_reads(task: Task, row: Seq<Cell>) -> bool {
    &&& Some(task.id@) == text_at(row, 0)
    &&& Some(task.title@) == text_at(row, 1)
    &&& Some(opt_view(task.description)) == opt_text_at(row, 2)
    &&& Some(opt_int(task.due_date)) == opt_int_at(row, 3)
    &&& Some(task.created_at as int) == int_at(row, 4)
    &&& Some(task.updated_at as int) == int_at(row, 5)
    &&& Some(task.priority@) == text_at(row, 6)
    &&& task.completed == (opt_int_at(row, 7) matches Some(Some(_)))
    &&& Some(opt_view(task.project_id)) == opt_text_at(row, 8)
    &&& task.order_index as int == match small_at(row, 9) {
        Some(n) => n,
        None => 0,
    }
    &&& task.recurrence_type@ == match text_at(row, 11) {
        Some(s) => s,
        None => "none"@,
    }
    &&& task.recurrence_interval as int == match small_at(row, 12) {
        Some(n) => n,
        None => 1,
    }
    &&& opt_view(task.recurrence_parent_id) == text_at(row, 13)
    &&& opt_small(task.reminder_minutes_before) == match opt_small_at(row, 14) {
        Some(inner) => inner,
        None => None,
    }
    &&& task.notification_repeat == match opt_small_at(row, 15) {
        Some(Some(n)) => n != 0,
        _ => false,
    }
}

/// Reads a task from a row of the columns of [`TASK_LISTING`].
///
/// The first nine columns must be readable. The others fall back where they
/// are not: position 0, recurrence `none` every 1, no parent, no reminder,
/// no repeated notification. A task is complete where its completion time is
/// set. The tags are left unset.
pub fn task_from_row(row: &Vec<Cell>) -> (r: Option<Task>)
    ensures
        r is Some <==> task_row_readable(row@),
        r matches Some(task) ==> task_reads(task, row@) && task.tags is None,
{
    let id = get_text(row, 0)?;
    let title = get_text(row, 1)?;
    let description = get_opt_text(row, 2)?;
    let due_date = get_opt_i64(row, 3)?;
    let created_at = get_i64(row, 4)?;
    let updated_at = get_i64(row, 5)?;
    let priority = get_text(row, 6)?;
    let completed_at = get_opt_i64(row, 7)?;
    let project_id = get_opt_text(row, 8)?;
    let order_index = match get_i32(row, 9) {
        Some(n) => n,
        None => 0,
    };
    let recurrence_type = match get_text(row, 11) {
        Some(s) => s,
        None => "none".to_string(),
    };
    let recurrence_interval = match get_i32(row, 12) {
        Some(n) => n,
        None => 1,
    };
    let recurrence_parent_id = get_text(row, 13);
    let reminder_minutes_before = match get_opt_i32(row, 14) {
        Some(inner) => inner,
        None => None,
    };
    let notification_repeat = match get_opt_i32(row, 15) {
        Some(Some(n)) => n != 0,
        _ => false,
    };
    Some(
        Task {
            id,
            title,
            description,
            completed: completed_at.is_some(),
            due_date,
            priority,
            created_at,
            updated_at,
            project_id,
            order_index,
            recurrence_type,
            recurrence_interval,
            recurrence_parent_id,
            reminder_minutes_before,
            notification_repeat,
            tags: None,
        },
    )
}

/// The start of every task listing.
pub open spec fn task_query_head() -> Seq<char> {
    TASK_LISTING@
}

/// The end of every task listing.
pub open spec fn task_query_tail() -> Seq<char> {
    TASK_ORDER@
}

/// The pattern that finds `search` anywhere in a text.
pub open spec fn like_pattern(search: Seq<char>) -> Seq<char> {
    "%"@ + search + "%"@
}

/// The pattern bound for a search, if there is one.
pub open spec fn search_pattern(search: Option<String>) -> Option<Datum> {
    match search {
        Some(s) => Some(Datum::Text(like_pattern(s@))),
        None => None,
    }
}

/// The text of the task listing for `filter`: the head, one condition for
/// each field of the filter that is set, the order.
pub open spec fn filter_sql(filter: TaskFilter) -> Seq<char> {
    task_query_head() + clause(filter.project_id is Some, " AND project_id = ?"@) + clause(
        filter.completed is Some,
        if filter.completed == Some(true) {
            " AND completed_at IS NOT NULL"@
        } else {
            " AND completed_at IS NULL"@
        },
    ) + clause(filter.due_before is Some, " AND due_at <= ?"@) + clause(
        filter.due_after is Some,
        " AND due_at >= ?"@,
    ) + clause(filter.search is Some, " AND (title LIKE ? OR description LIKE ?)"@) + clause(
        filter.tag_id is Some,
        " AND id IN (SELECT task_id FROM task_tags WHERE tag_id = ?)"@,
    ) + task_query_tail()
}

/// The values bound to the conditions of `filter`, in the order of their
/// placeholders. The search pattern is bound twice, for title and
/// description.
pub open spec fn filter_params(filter: TaskFilter) -> Seq<Datum> {
    Seq::<Datum>::empty() + opt_param(
        match filter.project_id {
            Some(id) => Some(Datum::Text(id@)),
            None => None,
        },
    ) + opt_param(
        match filter.due_before {
            Some(t) => Some(Datum::Integer(t as int)),
            None => None,
        },
    ) + opt_param(
        match filter.due_after {
            Some(t) => Some(Datum::Integer(t as int)),
            None => None,
        },
    ) + opt_param(search_pattern(filter.search)) + opt_param(search_pattern(filter.search))
        + opt_param(
        match filter.tag_id {
            Some(id) => Some(Datum::Text(id@)),
            None => None,
        },
    )
}

/// The task listing for `filter`. There is none where tasks of one tag are
/// asked for and the table that links tags to tasks does not exist: no task
/// can match then.
pub open spec fn task_query_spec(filter: Option<TaskFilter>, links_exist: bool) -> Option<
    StatementSpec,
> {
    match filter {
        None => Some(
            StatementSpec { sql: task_query_head() + task_query_tail(), params: Seq::empty() },
        ),
        Some(f) => if f.tag_id is Some && !links_exist {
            None
        } else {
            Some(StatementSpec { sql: filter_sql(f), params: filter_params(f) })
        },
    }
}

/// The value bound for an optional text, if there is one.
fn bound_text(text: &Option<String>) -> (v: Option<SqlValue>)
    ensures
        opt_datum(v) == match *text {
            Some(s) => Some(Datum::Text(s@)),
            None => None,
        },
{
    match text {
        Some(s) => Some(bind_text(s.as_str())),
        None => None,
    }
}

/// The value bound for an optional time, if there is one.
fn bound_time(time: Option<i64>) -> (v: Option<SqlValue>)
    ensures
        opt_datum(v) == match time {
            Some(t) => Some(Datum::Integer(t as int)),
            None => None,
        },
{
    match time {
        Some(t) => Some(SqlValue::Integer(t)),
        None => None,
    }
}

/// The pattern bound for a search, if there is one.
fn bound_pattern(search: &Option<String>) -> (v: Option<SqlValue>)
    ensures
        opt_datum(v) == search_pattern(*search),
{
    match search {
        Some(s) => {
            let mut pattern = concat("%", s.as_str());
            pattern.append("%");
            Some(SqlValue::Text(pattern))
        },
        None => None,
    }
}

/// Builds the task listing for `filter`: the tasks that meet every condition
/// of the filter, by position and then by age. `links_exist` says whether the
/// table that links tags to tasks exists; it is read only where the filter
/// names a tag.
pub fn task_query(filter: &Option<TaskFilter>, links_exist: bool) -> (r: Option<Statement>)
    ensures
        match r {
            Some(statement) => Some(statement@) == task_query_spec(*filter, links_exist),
            None => task_query_spec(*filter, links_exist) is None,
        },
{
    let mut sql = TASK_LISTING.to_string();
    let mut params: Vec<SqlValue> = Vec::new();
    assert(values(params@) =~= Seq::empty());
    match filter {
        None => {},
        Some(f) => {
            if f.tag_id.is_some() && !links_exist {
                return None;
            }
            append_clause(&mut sql, f.project_id.is_some(), " AND project_id = ?");
            append_clause(
                &mut sql,
                f.completed.is_some(),
                if f.completed == Some(true) {
                    " AND completed_at IS NOT NULL"
                } else {
                    " AND completed_at IS NULL"
                },
            );
            append_clause(&mut sql, f.due_before.is_some(), " AND due_at <= ?");
            append_clause(&mut sql, f.due_after.is_some(), " AND due_at >= ?");
            append_clause(
                &mut sql,
                f.search.is_some(),
                " AND (title LIKE ? OR description LIKE ?)",
            );
            append_clause(
                &mut sql,
                f.tag_id.is_some(),
                " AND id IN (SELECT task_id FROM task_tags WHERE tag_id = ?)",
            );
            push_opt(&mut params, bound_text(&f.project_id));
            push_opt(&mut params, bound_time(f.due_before));
            push_opt(&mut params, bound_time(f.due_after));
            push_opt(&mut params, bound_pattern(&f.search));
            push_opt(&mut params, bound_pattern(&f.search));
            push_opt(&mut params, bound_text(&f.tag_id));
        },
    }
    sql.append(TASK_ORDER);
    Some(Statement { sql, params })
}

/// The rows of `rows` from which a tag can be read, in order.
pub open spec fn tag_rows(rows: Seq<Vec<Cell>>) -> Seq<Vec<Cell>> {
    rows.filter(|row: Vec<Cell>| tag_row_readable(row@))
}

/// Filtering the tag rows commutes with appending one row.
proof fn lemma_tag_rows_push(rows: Seq<Vec<Cell>>, row: Vec<Cell>)
    ensures
        tag_rows(rows.push(row)) == if tag_row_readable(row@) {
            tag_rows(rows).push(row)
        } else {
            tag_rows(rows)
        },
{
    reveal(Seq::filter);
    assert(rows.push(row).drop_last() =~= rows);
}

/// The tags read from `rows`, in order; rows that cannot be read are left
/// out.
pub fn tags_from_rows(rows: &Vec<Vec<Cell>>) -> (tags: Vec<Tag>)
    ensures
        tags@.len() == tag_rows(rows@).len(),
        forall|i: int|
            0 <= i < tags@.len() ==> Some((#[trigger] tags@[i]).id@) == text_at(
                tag_rows(rows@)[i]@,
                0,
            ) && Some(tags@[i].name@) == text_at(tag_rows(rows@)[i]@, 1),
{
    let mut tags: Vec<Tag> = Vec::new();
    let mut i: usize = 0;
    assert(rows@.take(0) =~= Seq::empty());
    proof {
        reveal(Seq::filter);
    }
    while i < rows.len()
        invariant
            i <= rows@.len(),
            tags@.len() == tag_rows(rows@.take(i as int)).len(),
            forall|k: int|
                0 <= k < tags@.len() ==> Some((#[trigger] tags@[k]).id@) == text_at(
                    tag_rows(rows@.take(i as int))[k]@,
                    0,
                ) && Some(tags@[k].name@) == text_at(tag_rows(rows@.take(i as int))[k]@, 1),
        decreases rows@.len() - i,
    {
        proof {
            assert(rows@.take(i + 1) =~= rows@.take(i as int).push(rows@[i as int]));
            lemma_tag_rows_push(rows@.take(i as int), rows@[i as int]);
        }
        if let Some(tag) = tag_from_row(&rows[i]) {
            tags.push(tag);
        }
        i += 1;
    }
    assert(rows@.take(rows@.len() as int) == rows@);
    tags
}

/// The tags of the task `task_id`, by name. The call never fails: where the
/// tag table does not exist, or anything goes wrong, the task has no tags.
pub fn fetch_task_tags(conn: &Connection, task_id: &str) -> (r: Result<Vec<Tag>, String>)
    ensures
        r is Ok,
{
    if !table_known(conn, "SELECT COUNT(*) FROM sqlite_master WHERE type='table' AND name='tags'") {
        return Ok(Vec::new());
    }
    let mut params: Vec<SqlValue> = Vec::new();
    params.push(bind_text(task_id));
    match query_rows(
        conn,
        "SELECT t.id, t.name, t.color, t.created_at, t.usage_count 
         FROM tags t 
         INNER JOIN task_tags tt ON t.id = tt.tag_id 
         WHERE tt.task_id = ?1 
         ORDER BY t.name",
        &params,
    ) {
        Ok(rows) => Ok(tags_from_rows(&rows)),
        Err(_) => Ok(Vec::new()),
    }
}

/// The task `id`, with its tags.
pub fn fetch_task(conn: &Connection, id: &str) -> (r: Result<Task, String>)
    ensures
        r matches Err(message) ==> begins_with(message@, "Task not found: "@),
        r matches Ok(task) ==> task.tags is Some,
{
    let mut params: Vec<SqlValue> = Vec::new();
    params.push(bind_text(id));
    let row = match first_row(
        conn,
        "SELECT id, title, description, due_at, created_at, updated_at, priority, completed_at, project_id, order_index, metadata, recurrence_type, recurrence_interval, recurrence_parent_id, reminder_minutes_before, notification_repeat FROM tasks WHERE id = ?1",
        &params,
    ) {
        Ok(Some(row)) => row,
        Ok(None) => {
            return Err(concat("Task not found: ", NO_ROWS));
        },
        Err(e) => {
            return Err(describe_error("Task not found: ", &e));
        },
    };
    let mut task = match task_from_row(&row) {
        Some(task) => task,
        None => {
            return Err(concat("Task not found: ", BAD_ROW));
        },
    };
    task.tags = Some(fetch_task_tags(conn, id)?);
    Ok(task)
}

/// The rows of `rows` from which a task can be read, in order.
pub open spec fn task_rows(rows: Seq<Vec<Cell>>) -> Seq<Vec<Cell>> {
    rows.filter(|row: Vec<Cell>| task_row_readable(row@))
}

/// Filtering the task rows commutes with appending one row.
proof fn lemma_task_rows_push(rows: Seq<Vec<Cell>>, row: Vec<Cell>)
    ensures
        task_rows(rows.push(row)) == if task_row_readable(row@) {
            task_rows(rows).push(row)
        } else {
            task_rows(rows)
        },
{
    reveal(Seq::filter);
    assert(rows.push(row).drop_last() =~= rows);
}

/// The tasks read from `rows`, each with its tags looked up; rows that
/// cannot be read are left out. There is one task for each readable row, in
/// the order of the rows, and each holds what its row holds.
pub fn tasks_with_tags(conn: &Connection, rows: &Vec<Vec<Cell>>) -> (tasks: Vec<Task>)
    ensures
        tasks@.len() == task_rows(rows@).len(),
        forall|i: int|
            0 <= i < tasks@.len() ==> {
                &&& (#[trigger] tasks@[i]).tags is Some
                &&& task_reads(tasks@[i], task_rows(rows@)[i]@)
            },
{
    let mut tasks: Vec<Task> = Vec::new();
    let mut i: usize = 0;
    assert(rows@.take(0) =~= Seq::empty());
    proof {
        reveal(Seq::filter);
    }
    while i < rows.len()
        invariant
            i <= rows@.len(),
            tasks@.len() == task_rows(rows@.take(i as int)).len(),
            forall|k: int|
                0 <= k < tasks@.len() ==> {
                    &&& (#[trigger] tasks@[k]).tags is Some
                    &&& task_reads(tasks@[k], task_rows(rows@.take(i as int))[k]@)
                },
        decreases rows@.len() - i,
    {
        proof {
            assert(rows@.take(i + 1) =~= rows@.take(i as int).push(rows@[i as int]));
            lemma_task_rows_push(rows@.take(i as int), rows@[i as int]);
        }
        if let Some(task) = task_from_row(&rows[i]) {
            let mut task = task;
            task.tags = Some(
                match fetch_task_tags(conn, task.id.as_str()) {
                    Ok(tags) => tags,
                    Err(_) => Vec::new(),
                },
            );
            tasks.push(task);
        }
        i += 1;
    }
    assert(rows@.take(rows@.len() as int) == rows@);
    tasks
}

/// The tasks read from `rows`, each with its tags looked up; the first row
/// that cannot be read fails the whole listing.
pub fn tasks_with_tags_strict(conn: &Connection, rows: &Vec<Vec<Cell>>) -> (r: Result<
    Vec<Task>,
    String,
>)
    ensures
        r matches Err(message) ==> begins_with(message@, "Row parsing error: "@),
        r is Ok <==> forall|i: int| 0 <= i < rows@.len() ==> task_row_readable(#[trigger] rows@[i]@),
        r matches Ok(tasks) ==> tasks@.len() == rows@.len() && forall|i: int|
            0 <= i < tasks@.len() ==> (#[trigger] tasks@[i]).tags is Some && task_reads(
                tasks@[i],
                rows@[i]@,
            ),
{
    let mut tasks: Vec<Task> = Vec::new();
    let mut i: usize = 0;
    while i < rows.len()
        invariant
            i <= rows@.len(),
            tasks@.len() == i,
            forall|k: int| 0 <= k < i ==> task_row_readable(#[trigger] rows@[k]@),
            forall|k: int|
                0 <= k < tasks@.len() ==> (#[trigger] tasks@[k]).tags is Some && task_reads(
                    tasks@[k],
                    rows@[k]@,
                ),
        decreases rows@.len() - i,
    {
        match task_from_row(&rows[i]) {
            Some(task) => {
                let mut task = task;
                let tags = match fetch_task_tags(conn, task.id.as_str()) {
                    Ok(tags) => tags,
                    Err(_) => Vec::new(),
                };
                task.tags = Some(tags);
                tasks.push(task);
            },
            None => {
                return Err(concat("Row parsing error: ", BAD_ROW));
            },
        }
        i += 1;
    }
    Ok(tasks)
}

/// Whether the table that `query` counts exists; `false` where that cannot
/// be found out.
pub fn table_known(conn: &Connection, query: &str) -> (known: bool) {
    let none: Vec<SqlValue> = Vec::new();
    match first_row(conn, query, &none) {
        Ok(found) => counted(count_of(&found)),
        Err(_) => false,
    }
}

/// Whether `tasks` are the tasks of `rows`: one for each row that can be
/// read, in the order of the rows, each with what its row holds and with
/// its tags looked up.
pub open spec fn listed(tasks: Seq<Task>, rows: Seq<Vec<Cell>>) -> bool {
    tasks.len() == task_rows(rows).len() && forall|i: int|
        0 <= i < tasks.len() ==> (#[trigger] tasks[i]).tags is Some && task_reads(
            tasks[i],
            task_rows(rows)[i]@,
        )
}

/// The tasks that meet `filter`, by position and then by age, each with its
/// tags. Rows that cannot be read are left out: the tasks are those of the
/// rows that the listing gave ([`tasks_with_tags`]), and none where the
/// filter names a tag and there is no table of tag links.
pub fn get_tasks(db: &DbConnection, filter: Option<TaskFilter>) -> (r: Result<Vec<Task>, String>)
    ensures
        r matches Err(message) ==> listing_failure(message@),
        r matches Ok(tasks) ==> forall|i: int|
            0 <= i < tasks@.len() ==> (#[trigger] tasks@[i]).tags is Some,
        r matches Ok(tasks) ==> exists|rows: Seq<Vec<Cell>>| #[trigger] listed(tasks@, rows),
{
    let names_tag = match &filter {
        Some(f) => f.tag_id.is_some(),
        None => false,
    };
    let links_exist = if names_tag {
        table_known(
            &db.conn,
            "SELECT COUNT(*) FROM sqlite_master WHERE type='table' AND name='task_tags'",
        )
    } else {
        true
    };
    let statement = match task_query(&filter, links_exist) {
        Some(statement) => statement,
        None => {
            proof {
                reveal(Seq::filter);
                assert(listed(Seq::<Task>::empty(), Seq::<Vec<Cell>>::empty()));
            }
            return Ok(Vec::new());
        },
    };
    match query_rows(&db.conn, statement.sql.as_str(), &statement.params) {
        Ok(rows) => {
            let tasks = tasks_with_tags(&db.conn, &rows);
            assert(listed(tasks@, rows@));
            Ok(tasks)
        },
        Err(e) => Err(listing_error(&e)),
    }
}

/// The task `id`, with its tags.
pub fn get_task(db: &DbConnection, id: String) -> (r: Result<Task, String>)
    ensures
        r matches Err(message) ==> begins_with(message@, "Task not found: "@),
        r matches Ok(task) ==> task.tags is Some,
{
    fetch_task(&db.conn, id.as_str())
}

/// The values bound to the insert of a new task, in the order of the
/// statement's columns: a task that is open, at position 0, without
/// metadata or parent, recurring `none` every 1 unless the input says
/// otherwise.
pub open spec fn new_task_values(id: Seq<char>, input: CreateTaskInput, now: int) -> Seq<Datum> {
    seq![
        Datum::Text(id),
        Datum::Text(input.title@),
        text_or_null(input.description),
        int_or_null(input.due_date),
        Datum::Integer(now),
        Datum::Integer(now),
        Datum::Text(input.priority@),
        Datum::Null,
        text_or_null(input.project_id),
        Datum::Integer(0),
        Datum::Null,
        Datum::Text(
            match input.recurrence_type {
                Some(kind) => kind@,
                None => "none"@,
            },
        ),
        Datum::Integer(
            match input.recurrence_interval {
                Some(n) => n as int,
                None => 1,
            },
        ),
        Datum::Null,
        small_or_null(input.reminder_minutes_before),
        flag(input.notification_repeat == Some(true))
    ]
}

/// The values bound to the insert of a new task.
pub fn new_task_parameters(id: &str, input: &CreateTaskInput, now: i64) -> (params: Vec<SqlValue>)
    ensures
        values(params@) == new_task_values(id@, *input, now as int),
{
    let mut params: Vec<SqlValue> = Vec::new();
    params.push(bind_text(id));
    params.push(bind_text(input.title.as_str()));
    params.push(bind_opt_text(&input.description));
    params.push(bind_opt_i64(input.due_date));
    params.push(SqlValue::Integer(now));
    params.push(SqlValue::Integer(now));
    params.push(bind_text(input.priority.as_str()));
    params.push(SqlValue::Null);
    params.push(bind_opt_text(&input.project_id));
    params.push(SqlValue::Integer(0));
    params.push(SqlValue::Null);
    params.push(
        match &input.recurrence_type {
            Some(kind) => bind_text(kind.as_str()),
            None => bind_text("none"),
        },
    );
    params.push(
        match input.recurrence_interval {
            Some(n) => bind_i32(n),
            None => SqlValue::Integer(1),
        },
    );
    params.push(SqlValue::Null);
    params.push(bind_opt_i32(input.reminder_minutes_before));
    params.push(
        bind_flag(
            match input.notification_repeat {
                Some(on) => on,
                None => false,
            },
        ),
    );
    assert(values(params@) =~= new_task_values(id@, *input, now as int));
    params
}

/// Creates a task, schedules its reminders where it has a reminder setting,
/// and hands the stored task back.
pub fn create_task(db: &DbConnection, input: CreateTaskInput) -> (r: Result<Task, String>)
    ensures
        r matches Err(message) ==> begins_with(message@, "Failed to create task: "@)
            || begins_with(message@, "Task not found: "@),
        r matches Ok(task) ==> task.tags is Some,
{
    let id = new_id();
    let params = new_task_parameters(id.as_str(), &input, now());
    if let Err(e) = execute_with(
        &db.conn,
        "INSERT INTO tasks (id, title, description, due_at, created_at, updated_at, priority, completed_at, project_id, order_index, metadata, recurrence_type, recurrence_interval, recurrence_parent_id, reminder_minutes_before, notification_repeat)
         VALUES (?1, ?2, ?3, ?4, ?5, ?6, ?7, ?8, ?9, ?10, ?11, ?12, ?13, ?14, ?15, ?16)",
        &params,
    ) {
        return Err(describe_error("Failed to create task: ", &e));
    }
    if input.reminder_minutes_before.is_some() {
        let _ = schedule_notification(db, id.as_str(), input.reminder_minutes_before);
    }
    fetch_task(&db.conn, id.as_str())
}

/// The value of an optional text to assign, if there is one.
pub open spec fn assigned_text(text: Option<String>) -> Option<Datum> {
    match text {
        Some(s) => Some(Datum::Text(s@)),
        None => None,
    }
}

/// The value of an optional 64-bit integer to assign, if there is one.
pub open spec fn assigned_int(n: Option<i64>) -> Option<Datum> {
    match n {
        Some(n) => Some(Datum::Integer(n as int)),
        None => None,
    }
}

/// The value of an optional 32-bit integer to assign, if there is one.
pub open spec fn assigned_small(n: Option<i32>) -> Option<Datum> {
    match n {
        Some(n) => Some(Datum::Integer(n as int)),
        None => None,
    }
}

/// The value of an optional flag to assign, if there is one.
pub open spec fn assigned_flag(on: Option<bool>) -> Option<Datum> {
    match on {
        Some(on) => Some(flag(on)),
        None => None,
    }
}

/// An assignment of a text column.
pub fn assign_text(clause: &str, text: &Option<String>) -> (a: Assignment)
    ensures
        a@ == (AssignmentSpec { clause: clause@, value: assigned_text(*text) }),
{
    Assignment {
        clause: clause.to_string(),
        value: match text {
            Some(s) => Some(bind_text(s.as_str())),
            None => None,
        },
    }
}

/// An assignment of a 64-bit integer column.
pub fn assign_i64(clause: &str, n: Option<i64>) -> (a: Assignment)
    ensures
        a@ == (AssignmentSpec { clause: clause@, value: assigned_int(n) }),
{
    Assignment {
        clause: clause.to_string(),
        value: match n {
            Some(n) => Some(SqlValue::Integer(n)),
            None => None,
        },
    }
}

/// An assignment of a 32-bit integer column.
pub fn assign_i32(clause: &str, n: Option<i32>) -> (a: Assignment)
    ensures
        a@ == (AssignmentSpec { clause: clause@, value: assigned_small(n) }),
{
    Assignment {
        clause: clause.to_string(),
        value: match n {
            Some(n) => Some(bind_i32(n)),
            None => None,
        },
    }
}

/// An assignment of a flag column.
pub fn assign_flag(clause: &str, on: Option<bool>) -> (a: Assignment)
    ensures
        a@ == (AssignmentSpec { clause: clause@, value: assigned_flag(on) }),
{
    Assignment {
        clause: clause.to_string(),
        value: match on {
            Some(on) => Some(bind_flag(on)),
            None => None,
        },
    }
}

/// The assignments of a task update, one for each field that can be
/// changed, in the order in which they appear in the statement.
pub open spec fn task_assignments(input: UpdateTaskInput) -> Seq<AssignmentSpec> {
    seq![
        AssignmentSpec { clause: "title = ?"@, value: assigned_text(input.title) },
        AssignmentSpec { clause: "description = ?"@, value: assigned_text(input.description) },
        AssignmentSpec { clause: "due_at = ?"@, value: assigned_int(input.due_date) },
        AssignmentSpec { clause: "priority = ?"@, value: assigned_text(input.priority) },
        AssignmentSpec { clause: "project_id = ?"@, value: assigned_text(input.project_id) },
        AssignmentSpec { clause: "order_index = ?"@, value: assigned_small(input.order_index) },
        AssignmentSpec {
            clause: "recurrence_type = ?"@,
            value: assigned_text(input.recurrence_type),
        },
        AssignmentSpec {
            clause: "recurrence_interval = ?"@,
            value: assigned_small(input.recurrence_interval),
        },
        AssignmentSpec {
            clause: "reminder_minutes_before = ?"@,
            value: assigned_small(input.reminder_minutes_before),
        },
        AssignmentSpec {
            clause: "notification_repeat = ?"@,
            value: assigned_flag(input.notification_repeat),
        }
    ]
}

/// The statement that changes the task `id` as `input` says and notes `now`
/// as the time of the change; none where `input` changes nothing.
pub fn task_update(id: &str, input: &UpdateTaskInput, now: i64) -> (r: Option<Statement>)
    ensures
        match r {
            Some(statement) => Some(statement@) == update_spec(
                "UPDATE tasks SET "@,
                task_assignments(*input),
                Some(now as int),
                id@,
            ),
            None => update_spec(
                "UPDATE tasks SET "@,
                task_assignments(*input),
                Some(now as int),
                id@,
            ) is None,
        },
{
    let mut list: Vec<Assignment> = Vec::new();
    list.push(assign_text("title = ?", &input.title));
    list.push(assign_text("description = ?", &input.description));
    list.push(assign_i64("due_at = ?", input.due_date));
    list.push(assign_text("priority = ?", &input.priority));
    list.push(assign_text("project_id = ?", &input.project_id));
    list.push(assign_i32("order_index = ?", input.order_index));
    list.push(assign_text("recurrence_type = ?", &input.recurrence_type));
    list.push(assign_i32("recurrence_interval = ?", input.recurrence_interval));
    list.push(assign_i32("reminder_minutes_before = ?", input.reminder_minutes_before));
    list.push(assign_flag("notification_repeat = ?", input.notification_repeat));
    assert(assignments(list@) =~= task_assignments(*input));
    update_statement("UPDATE tasks SET ", &list, Some(now), id)
}

/// Whether an update touches what the reminders of a task depend on: its
/// due time, its reminder setting or its repetition.
pub fn reminders_affected(input: &UpdateTaskInput) -> (affected: bool)
    ensures
        affected == (input.reminder_minutes_before is Some || input.notification_repeat is Some
            || input.due_date is Some),
{
    input.reminder_minutes_before.is_some() || input.notification_repeat.is_some()
        || input.due_date.is_some()
}

/// Changes the task `id` as `input` says and hands the stored task back.
/// Where the update touches what the reminders depend on, the task's
/// reminders are removed and scheduled anew.
pub fn update_task(db: &DbConnection, id: String, input: UpdateTaskInput) -> (r: Result<
    Task,
    String,
>)
    ensures
        r matches Err(message) ==> begins_with(message@, "Failed to update task: "@)
            || begins_with(message@, "Task not found: "@),
        r matches Ok(task) ==> task.tags is Some,
{
    let statement = match task_update(id.as_str(), &input, now()) {
        Some(statement) => statement,
        None => {
            return fetch_task(&db.conn, id.as_str());
        },
    };
    if let Err(e) = execute_with(&db.conn, statement.sql.as_str(), &statement.params) {
        return Err(describe_error("Failed to update task: ", &e));
    }
    if reminders_affected(&input) {
        let mut params: Vec<SqlValue> = Vec::new();
        params.push(bind_text(id.as_str()));
        let _ = execute_with(
            &db.conn,
            "DELETE FROM notification_schedule WHERE task_id = ?1",
            &params,
        );
        let reminder_minutes = match first_row(
            &db.conn,
            "SELECT reminder_minutes_before FROM tasks WHERE id = ?1",
            &params,
        ) {
            Ok(Some(row)) => match get_opt_i32(&row, 0) {
                Some(minutes) => minutes,
                None => None,
            },
            _ => None,
        };
        if reminder_minutes.is_some() {
            let _ = schedule_notification(db, id.as_str(), reminder_minutes);
        }
    }
    fetch_task(&db.conn, id.as_str())
}

/// Removes the task `id`.
pub fn delete_task(db: &DbConnection, id: String) -> (r: Result<(), String>)
    ensures
        r matches Err(message) ==> begins_with(message@, "Failed to delete task: "@),
{
    let mut params: Vec<SqlValue> = Vec::new();
    params.push(SqlValue::Text(id));
    written(
        execute_with(
            &db.conn,
            "DELETE FROM tasks WHERE id = ?1",
            &params,
        ),
        "Failed to delete task: ",
    )
}

/// The days between two instances of a recurring task: the interval for
/// `daily`, seven times it for `weekly`, thirty times it for `monthly`, and
/// none for any other kind.
pub open spec fn recurrence_days(kind: Seq<char>, interval: int) -> int {
    if kind == "daily"@ {
        interval
    } else if kind == "weekly"@ {
        interval * 7
    } else if kind == "monthly"@ {
        interval * 30
    } else {
        0
    }
}

/// The due time of the next instance of a recurring task: the due time of
/// this one moved by the days of the recurrence, held inside the range of
/// `i64`; none where this one has none.
pub open spec fn next_due(due: Option<i64>, kind: Seq<char>, interval: int) -> Option<int> {
    match due {
        Some(due) => Some(shifted(due as int, recurrence_days(kind, interval) * 86400)),
        None => None,
    }
}

/// The due time of the next instance of a recurring task.
pub fn next_due_date(due: Option<i64>, recurrence_type: &str, interval: i32) -> (r: Option<i64>)
    ensures
        opt_int(r) == next_due(due, recurrence_type@, interval as int),
{
    let due = due?;
    let wide: i64 = interval as i64;
    let days: i64 = if str_eq(recurrence_type, "daily") {
        wide
    } else if str_eq(recurrence_type, "weekly") {
        wide * 7
    } else if str_eq(recurrence_type, "monthly") {
        wide * 30
    } else {
        0
    };
    Some(shift(due, days * 86400))
}

/// What completing or reopening a task entails.
#[derive(Clone, Copy, Debug, PartialEq, Eq, Structural)]
pub struct Toggle {
    /// The completion time to store: the current time, or none.
    pub completed_at: Option<i64>,
    /// Whether the next instance of a recurring task is to be created.
    pub recur: bool,
    /// The experience to grant, where the task is being completed.
    pub grant: Option<i32>,
    /// Whether the experience granted for the task is to be taken back.
    pub revoke: bool,
}

/// What toggling a task entails: an open task is completed now, its next
/// instance is created where it recurs, and experience is granted by its
/// priority; a completed task is reopened, and the experience is taken back.
pub fn plan_toggle(completed_at: Option<i64>, recurrence_type: &str, priority: &str, now: i64) -> (t:
    Toggle)
    ensures
        completed_at is None ==> t == (Toggle {
            completed_at: Some(now),
            recur: recurrence_type@ != "none"@,
            grant: Some(completion_xp_spec(priority@) as i32),
            revoke: false,
        }),
        completed_at is Some ==> t == (Toggle {
            completed_at: None,
            recur: false,
            grant: None,
            revoke: true,
        }),
{
    match completed_at {
        None => Toggle {
            completed_at: Some(now),
            recur: !str_eq(recurrence_type, "none"),
            grant: Some(completion_xp(priority)),
            revoke: false,
        },
        Some(_) => Toggle { completed_at: None, recur: false, grant: None, revoke: true },
    }
}

/// What the next instance of a recurring task copies from the task.
#[derive(Debug, Clone)]
pub struct Recurring {
    pub title: String,
    pub description: Option<String>,
    pub due_date: Option<i64>,
    pub priority: String,
    pub project_id: Option<String>,
    pub order_index: i32,
}

/// Whether a row of the columns title, description, due_at, priority,
/// project_id, order_index can be read.
pub open spec fn recurring_row_readable(row: Seq<Cell>) -> bool {
    &&& text_at(row, 0) is Some
    &&& opt_text_at(row, 1) is Some
    &&& opt_int_at(row, 2) is Some
    &&& text_at(row, 3) is Some
    &&& opt_text_at(row, 4) is Some
    &&& small_at(row, 5) is Some
}

/// Reads what the next instance copies from a row of the columns title,
/// description, due_at, priority, project_id, order_index.
pub fn recurring_from_row(row: &Vec<Cell>) -> (r: Option<Recurring>)
    ensures
        r is Some <==> recurring_row_readable(row@),
        r matches Some(source) ==> {
            &&& Some(source.title@) == text_at(row@, 0)
            &&& Some(opt_view(source.description)) == opt_text_at(row@, 1)
            &&& Some(opt_int(source.due_date)) == opt_int_at(row@, 2)
            &&& Some(source.priority@) == text_at(row@, 3)
            &&& Some(opt_view(source.project_id)) == opt_text_at(row@, 4)
            &&& Some(source.order_index as int) == small_at(row@, 5)
        },
{
    let title = get_text(row, 0);
    let description = get_opt_text(row, 1);
    let due_date = get_opt_i64(row, 2);
    let priority = get_text(row, 3);
    let project_id = get_opt_text(row, 4);
    let order_index = get_i32(row, 5);
    match (title, description, due_date, priority, project_id, order_index) {
        (
            Some(title),
            Some(description),
            Some(due_date),
            Some(priority),
            Some(project_id),
            Some(order_index),
        ) => Some(Recurring { title, description, due_date, priority, project_id, order_index }),
        _ => None,
    }
}

/// The values bound to the insert of the next instance of a recurring task,
/// in the order of the statement's columns: a copy of the task that is open,
/// created at `now`, due as [`next_due`] says, recurring as the task does,
/// and that names the task as its parent.
pub open spec fn next_instance_values(
    id: Seq<char>,
    source: Recurring,
    kind: Seq<char>,
    interval: int,
    parent_id: Seq<char>,
    now: int,
) -> Seq<Datum> {
    seq![
        Datum::Text(id),
        Datum::Text(source.title@),
        text_or_null(source.description),
        match next_due(source.due_date, kind, interval) {
            Some(due) => Datum::Integer(due),
            None => Datum::Null,
        },
        Datum::Integer(now),
        Datum::Integer(now),
        Datum::Text(source.priority@),
        Datum::Null,
        text_or_null(source.project_id),
        Datum::Integer(source.order_index as int),
        Datum::Null,
        Datum::Text(kind),
        Datum::Integer(interval),
        Datum::Text(parent_id)
    ]
}

/// The values bound to the insert of the next instance of a recurring task.
pub fn next_instance_parameters(
    id: String,
    source: &Recurring,
    recurrence_type: &str,
    interval: i32,
    parent_id: &str,
    now: i64,
) -> (params: Vec<SqlValue>)
    ensures
        values(params@) == next_instance_values(
            id@,
            *source,
            recurrence_type@,
            interval as int,
            parent_id@,
            now as int,
        ),
{
    let mut params: Vec<SqlValue> = Vec::new();
    params.push(SqlValue::Text(id));
    params.push(bind_text(source.title.as_str()));
    params.push(bind_opt_text(&source.description));
    params.push(bind_opt_i64(next_due_date(source.due_date, recurrence_type, interval)));
    params.push(SqlValue::Integer(now));
    params.push(SqlValue::Integer(now));
    params.push(bind_text(source.priority.as_str()));
    params.push(SqlValue::Null);
    params.push(bind_opt_text(&source.project_id));
    params.push(bind_i32(source.order_index));
    params.push(SqlValue::Null);
    params.push(bind_text(recurrence_type));
    params.push(bind_i32(interval));
    params.push(bind_text(parent_id));
    assert(values(params@) =~= next_instance_values(
        id@,
        *source,
        recurrence_type@,
        interval as int,
        parent_id@,
        now as int,
    ));
    params
}

/// Creates the next instance of the recurring task `parent_id`: a copy that
/// is open, due as [`next_due_date`] says, and that names its parent.
pub fn create_recurring_instance(
    conn: &Connection,
    parent_id: &str,
    recurrence_type: &str,
    interval: i32,
) -> (r: Result<(), String>)
    ensures
        r matches Err(message) ==> begins_with(message@, "Failed to fetch original task: "@)
            || begins_with(message@, "Failed to create recurring task instance: "@),
{
    let mut lookup: Vec<SqlValue> = Vec::new();
    lookup.push(bind_text(parent_id));
    let row = single_row(
        first_row(
            conn,
            "SELECT title, description, due_at, priority, project_id, order_index FROM tasks WHERE id = ?1",
            &lookup,
        ),
        "Failed to fetch original task: ",
    )?;
    let source = read_or(recurring_from_row(&row), "Failed to fetch original task: ")?;
    let params = next_instance_parameters(
        new_id(),
        &source,
        recurrence_type,
        interval,
        parent_id,
        now(),
    );
    written(
        execute_with(
            conn,
            "INSERT INTO tasks (id, title, description, due_at, created_at, updated_at, priority, completed_at, project_id, order_index, metadata, recurrence_type, recurrence_interval, recurrence_parent_id)
         VALUES (?1, ?2, ?3, ?4, ?5, ?6, ?7, ?8, ?9, ?10, ?11, ?12, ?13, ?14)",
            &params,
        ),
        "Failed to create recurring task instance: ",
    )
}

/// Completes the task `id` where it is open and reopens it where it is
/// completed, with all that [`plan_toggle`] entails, and hands the stored
/// task back. The bookkeeping of experience, streak and badges is best
/// effort: its failures are passed over.
pub fn toggle_complete(db: &DbConnection, id: String) -> (r: Result<Task, String>)
    ensures
        r matches Err(message) ==> begins_with(message@, "Task not found: "@)
            || begins_with(message@, "Failed to toggle complete: "@)
            || begins_with(message@, "Failed to fetch original task: "@)
            || begins_with(message@, "Failed to create recurring task instance: "@),
        r matches Ok(task) ==> task.tags is Some,
{
    let mut lookup: Vec<SqlValue> = Vec::new();
    lookup.push(bind_text(id.as_str()));
    let row = match first_row(
        &db.conn,
        "SELECT completed_at, recurrence_type, recurrence_interval, priority FROM tasks WHERE id = ?1",
        &lookup,
    ) {
        Ok(Some(row)) => row,
        Ok(None) => {
            return Err(concat("Task not found: ", NO_ROWS));
        },
        Err(e) => {
            return Err(describe_error("Task not found: ", &e));
        },
    };
    let state = (get_opt_i64(&row, 0), get_text(&row, 1), get_i32(&row, 2), get_text(&row, 3));
    let (completed, recurrence_type, recurrence_interval, priority) = match state {
        (Some(a), Some(b), Some(c), Some(d)) => (a, b, c, d),
        _ => {
            return Err(concat("Task not found: ", BAD_ROW));
        },
    };
    let toggled_at = now();
    let plan = plan_toggle(completed, recurrence_type.as_str(), priority.as_str(), toggled_at);
    let mut params: Vec<SqlValue> = Vec::new();
    params.push(bind_opt_i64(plan.completed_at));
    params.push(SqlValue::Integer(toggled_at));
    params.push(bind_text(id.as_str()));
    if let Err(e) = execute_with(
        &db.conn,
        "UPDATE tasks SET completed_at = ?1, updated_at = ?2 WHERE id = ?3",
        &params,
    ) {
        return Err(describe_error("Failed to toggle complete: ", &e));
    }
    if plan.recur {
        create_recurring_instance(
            &db.conn,
            id.as_str(),
            recurrence_type.as_str(),
            recurrence_interval,
        )?;
    }
    if let Some(xp) = plan.grant {
        let _ = grant_xp_internal(&db.conn, xp, "task_completion".to_string(), Some(id.clone()));
        let _ = update_streak_internal(&db.conn);
        let _ = check_and_award_badges_internal(&db.conn);
    } else if plan.revoke {
        let granted = match first_row(
            &db.conn,
            "SELECT xp_amount, id FROM xp_history WHERE task_id = ?1 AND source = 'task_completion' ORDER BY created_at DESC LIMIT 1",
            &lookup,
        ) {
            Ok(Some(row)) => match (get_i32(&row, 0), get_text(&row, 1)) {
                (Some(amount), Some(history_id)) => Some((amount, history_id)),
                _ => None,
            },
            _ => None,
        };
        if let Some((amount, history_id)) = granted {
            let _ = revoke_xp_internal(&db.conn, amount, history_id);
            let _ = update_streak_internal(&db.conn);
        }
    }
    fetch_task(&db.conn, id.as_str())
}

} // verus!
