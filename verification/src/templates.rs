//! Task templates.

use vstd::prelude::*;
use crate::text::begins_with;
use crate::error::listing_failure;
use crate::clock::now;
use crate::db::DbConnection;
use crate::ids::new_id;
use crate::rows::first_row;
use crate::rows::get_i64;
use crate::rows::get_opt_text;
use crate::rows::get_text;
use crate::rows::int_at;
use crate::rows::opt_text_at;
use crate::rows::opt_view;
use crate::rows::text_at;
use crate::rows::BAD_ROW;
use crate::rows::NO_ROWS;
use crate::error::describe_error;
use crate::error::listing_error;
use crate::error::written;
use crate::sqlite::execute_with;
use crate::sqlite::query_rows;
use crate::sqlite::Cell;
use crate::sqlite::SqlValue;
use crate::statement::assigned_clauses;
use crate::statement::assignments;
use crate::statement::bind_opt_i64;
use crate::statement::bind_opt_text;
use crate::statement::bind_text;
use crate::statement::update_spec;
use crate::statement::update_statement;
use crate::statement::Assignment;
use crate::statement::AssignmentSpec;
use crate::statement::Statement;
use crate::tasks::assign_text;
use crate::tasks::assigned_text;
use crate::tasks::fetch_task;
use crate::tasks::Task;
use crate::text::concat;
use crate::sqlite::values;
use crate::sqlite::Datum;
use crate::statement::text_or_null;
use crate::rows::single_row;
use crate::rows::read_or;

verus! {

/// A template from which tasks are created.
#[derive(Debug, Clone)]
pub struct Template {
    pub id: String,
    pub name: String,
    pub title: String,
    pub description: Option<String>,
    pub priority: String,
    pub project_id: Option<String>,
    pub recurrence_type: Option<String>,
    pub created_at: i64,
    pub updated_at: i64,
}

/// What the user enters to create a template.
#[derive(Debug)]
pub struct CreateTemplateInput {
    pub name: String,
    pub title: String,
    pub description: Option<String>,
    pub priority: String,
    pub project_id: Option<String>,
    pub recurrence_type: Option<String>,
}

/// The fields of a template to change; a field left out stays as it is.
#[derive(Debug)]
pub struct UpdateTemplateInput {
    pub name: Option<String>,
    pub title: Option<String>,
    pub description: Option<String>,
    pub priority: Option<String>,
    pub project_id: Option<String>,
    pub recurrence_type: Option<String>,
}

/// Whether a template row can be read.
pub open spec fn template_row_readable(row: Seq<Cell>) -> bool {
    &&& text_at(row, 0) is Some
    &&& text_at(row, 1) is Some
    &&& text_at(row, 2) is Some
    &&& opt_text_at(row, 3) is Some
    &&& text_at(row, 4) is Some
    &&& opt_text_at(row, 5) is Some
    &&& int_at(row, 6) is Some
    &&& int_at(row, 7) is Some
}

/// Reads a template from a row of the columns id, name, title, description,
/// priority, project_id, created_at, updated_at. The recurrence is not
/// stored and is left unset.
pub fn template_from_row(row: &Vec<Cell>) -> (r: Option<Template>)
    ensures
        r is Some <==> template_row_readable(row@),
        r matches Some(t) ==> {
            &&& Some(t.id@) == text_at(row@, 0)
            &&& Some(t.name@) == text_at(row@, 1)
            &&& Some(t.title@) == text_at(row@, 2)
            &&& Some(opt_view(t.description)) == opt_text_at(row@, 3)
            &&& Some(t.priority@) == text_at(row@, 4)
            &&& Some(opt_view(t.project_id)) == opt_text_at(row@, 5)
            &&& t.recurrence_type is None
            &&& Some(t.created_at as int) == int_at(row@, 6)
            &&& Some(t.updated_at as int) == int_at(row@, 7)
        },
{
    let id = get_text(row, 0)?;
    let name = get_text(row, 1)?;
    let title = get_text(row, 2)?;
    let description = get_opt_text(row, 3)?;
    let priority = get_text(row, 4)?;
    let project_id = get_opt_text(row, 5)?;
    let created_at = get_i64(row, 6)?;
    let updated_at = get_i64(row, 7)?;
    Some(
        Template {
            id,
            name,
            title,
            description,
            priority,
            project_id,
            recurrence_type: None,
            created_at,
            updated_at,
        },
    )
}

/// The templates read from `rows`, or the message for the first row that
/// cannot be read.
pub fn templates_from_rows(rows: &Vec<Vec<Cell>>) -> (r: Result<Vec<Template>, String>)
    ensures
        r matches Err(message) ==> begins_with(message@, "Row parsing error: "@),
        r is Ok <==> forall|i: int|
            0 <= i < rows@.len() ==> template_row_readable(#[trigger] rows@[i]@),
        r matches Ok(list) ==> list@.len() == rows@.len(),
{
    let mut list: Vec<Template> = Vec::new();
    let mut i: usize = 0;
    while i < rows.len()
        invariant
            i <= rows@.len(),
            list@.len() == i,
            forall|j: int| 0 <= j < i ==> template_row_readable(#[trigger] rows@[j]@),
        decreases rows@.len() - i,
    {
        match template_from_row(&rows[i]) {
            Some(template) => list.push(template),
            None => {
                return Err(concat("Row parsing error: ", BAD_ROW));
            },
        }
        i += 1;
    }
    Ok(list)
}

/// Reads the template `id`; `prefix` is put before the reason of a failure.
fn read_template(db: &DbConnection, id: &str, prefix: &str) -> (r: Result<Template, String>)
    ensures
        r matches Err(message) ==> begins_with(message@, prefix@),
{
    let mut params: Vec<SqlValue> = Vec::new();
    params.push(bind_text(id));
    let row = single_row(
        first_row(
            &db.conn,
            "SELECT id, name, title, description, priority, project_id, created_at, updated_at FROM task_templates WHERE id = ?1",
            &params,
        ),
        prefix,
    )?;
    read_or(template_from_row(&row), prefix)
}

/// The values bound to the insert of a new template: its id, its name, the
/// title, description, priority and project of the tasks made from it, and the
/// time `now` as the time of creation and of the last change.
pub open spec fn new_template_values(id: Seq<char>, input: CreateTemplateInput, now: int) -> Seq<
    Datum,
> {
    seq![
        Datum::Text(id),
        Datum::Text(input.name@),
        Datum::Text(input.title@),
        text_or_null(input.description),
        Datum::Text(input.priority@),
        text_or_null(input.project_id),
        Datum::Integer(now),
        Datum::Integer(now)
    ]
}

/// The values bound to the insert of a new template.
pub fn new_template_parameters(id: &str, input: &CreateTemplateInput, now: i64) -> (params: Vec<
    SqlValue,
>)
    ensures
        values(params@) == new_template_values(id@, *input, now as int),
{
    let mut params: Vec<SqlValue> = Vec::new();
    params.push(bind_text(id));
    params.push(bind_text(input.name.as_str()));
    params.push(bind_text(input.title.as_str()));
    params.push(bind_opt_text(&input.description));
    params.push(bind_text(input.priority.as_str()));
    params.push(bind_opt_text(&input.project_id));
    params.push(SqlValue::Integer(now));
    params.push(SqlValue::Integer(now));
    assert(values(params@) =~= new_template_values(id@, *input, now as int));
    params
}

/// Creates a template and hands the stored template back. The recurrence of
/// the input is not stored.
pub fn create_template(db: &DbConnection, input: CreateTemplateInput) -> (r: Result<
    Template,
    String,
>)
    ensures
        r matches Err(message) ==> begins_with(message@, "Failed to create template: "@)
            || begins_with(message@, "Failed to fetch created template: "@),
{
    let id = new_id();
    let params = new_template_parameters(id.as_str(), &input, now());
    if let Err(e) = execute_with(
        &db.conn,
        "INSERT INTO task_templates (id, name, title, description, priority, project_id, created_at, updated_at)
         VALUES (?1, ?2, ?3, ?4, ?5, ?6, ?7, ?8)",
        &params,
    ) {
        return Err(describe_error("Failed to create template: ", &e));
    }
    read_template(db, id.as_str(), "Failed to fetch created template: ")
}

/// All templates, newest first.
pub fn get_templates(db: &DbConnection) -> (r: Result<Vec<Template>, String>)
    ensures
        r matches Err(message) ==> listing_failure(message@),
{
    let none: Vec<SqlValue> = Vec::new();
    match query_rows(
        &db.conn,
        "SELECT id, name, title, description, priority, project_id, created_at, updated_at FROM task_templates ORDER BY created_at DESC",
        &none,
    ) {
        Ok(rows) => templates_from_rows(&rows),
        Err(e) => Err(listing_error(&e)),
    }
}

/// The template `id`.
pub fn get_template(db: &DbConnection, id: String) -> (r: Result<Template, String>)
    ensures
        r matches Err(message) ==> begins_with(message@, "Template not found: "@),
{
    read_template(db, id.as_str(), "Template not found: ")
}

/// The assignments of a template update. The recurrence cannot be changed.
pub open spec fn template_assignments(input: UpdateTemplateInput) -> Seq<AssignmentSpec> {
    seq![
        AssignmentSpec { clause: "name = ?"@, value: assigned_text(input.name) },
        AssignmentSpec { clause: "title = ?"@, value: assigned_text(input.title) },
        AssignmentSpec { clause: "description = ?"@, value: assigned_text(input.description) },
        AssignmentSpec { clause: "priority = ?"@, value: assigned_text(input.priority) },
        AssignmentSpec { clause: "project_id = ?"@, value: assigned_text(input.project_id) }
    ]
}

/// The statement that changes the template `id` as `input` says and notes
/// `now` as the time of the change; none where `input` changes nothing.
pub fn template_update(id: &str, input: &UpdateTemplateInput, now: i64) -> (r: Option<Statement>)
    ensures
        match r {
            Some(statement) => Some(statement@) == update_spec(
                "UPDATE task_templates SET "@,
                template_assignments(*input),
                Some(now as int),
                id@,
            ),
            None => update_spec(
                "UPDATE task_templates SET "@,
                template_assignments(*input),
                Some(now as int),
                id@,
            ) is None,
        },
{
    let mut list: Vec<Assignment> = Vec::new();
    list.push(assign_text("name = ?", &input.name));
    list.push(assign_text("title = ?", &input.title));
    list.push(assign_text("description = ?", &input.description));
    list.push(assign_text("priority = ?", &input.priority));
    list.push(assign_text("project_id = ?", &input.project_id));
    assert(assignments(list@) =~= template_assignments(*input));
    update_statement("UPDATE task_templates SET ", &list, Some(now), id)
}

/// Changes the template `id` as `input` says and hands the stored template
/// back.
pub fn update_template(db: &DbConnection, id: String, input: UpdateTemplateInput) -> (r: Result<
    Template,
    String,
>)
    ensures
        assigned_clauses(template_assignments(input)).len() == 0 ==> (r matches Err(message)
            ==> begins_with(message@, "Template not found: "@)),
        r matches Err(message) ==> begins_with(message@, "Failed to update template: "@)
            || begins_with(message@, "Template not found: "@),
{
    if let Some(statement) = template_update(id.as_str(), &input, now()) {
        if let Err(e) = execute_with(&db.conn, statement.sql.as_str(), &statement.params) {
            return Err(describe_error("Failed to update template: ", &e));
        }
    }
    get_template(db, id)
}

/// Removes the template `id`.
pub fn delete_template(db: &DbConnection, id: String) -> (r: Result<(), String>)
    ensures
        r matches Err(message) ==> begins_with(message@, "Failed to delete template: "@),
{
    let mut params: Vec<SqlValue> = Vec::new();
    params.push(SqlValue::Text(id));
    written(
        execute_with(
            &db.conn,
            "DELETE FROM task_templates WHERE id = ?1",
            &params,
        ),
        "Failed to delete template: ",
    )
}

/// Creates a task from the template `template_id`: an open task with the
/// template's title, description, priority and project, due at `due_date`,
/// that does not recur.
pub fn create_task_from_template(db: &DbConnection, template_id: String, due_date: Option<i64>) -> (r:
    Result<Task, String>)
    ensures
        r matches Err(message) ==> begins_with(message@, "Template not found: "@)
            || begins_with(message@, "Failed to create task from template: "@)
            || begins_with(message@, "Task not found: "@),
        r matches Ok(task) ==> task.tags is Some,
{
    let mut lookup: Vec<SqlValue> = Vec::new();
    lookup.push(SqlValue::Text(template_id));
    let row = match first_row(
        &db.conn,
        "SELECT title, description, priority, project_id FROM task_templates WHERE id = ?1",
        &lookup,
    ) {
        Ok(Some(row)) => row,
        Ok(None) => {
            return Err(concat("Template not found: ", NO_ROWS));
        },
        Err(e) => {
            return Err(describe_error("Template not found: ", &e));
        },
    };
    let template = (
        get_text(&row, 0),
        get_opt_text(&row, 1),
        get_text(&row, 2),
        get_opt_text(&row, 3),
    );
    let (title, description, priority, project_id) = match template {
        (Some(a), Some(b), Some(c), Some(d)) => (a, b, c, d),
        _ => {
            return Err(concat("Template not found: ", BAD_ROW));
        },
    };
    let id = new_id();
    let created_at = now();
    let mut params: Vec<SqlValue> = Vec::new();
    params.push(bind_text(id.as_str()));
    params.push(SqlValue::Text(title));
    params.push(bind_opt_text(&description));
    params.push(bind_opt_i64(due_date));
    params.push(SqlValue::Integer(created_at));
    params.push(SqlValue::Integer(created_at));
    params.push(SqlValue::Text(priority));
    params.push(SqlValue::Null);
    params.push(bind_opt_text(&project_id));
    params.push(SqlValue::Integer(0));
    params.push(SqlValue::Null);
    params.push(bind_text("none"));
    params.push(SqlValue::Integer(1));
    params.push(SqlValue::Null);
    if let Err(e) = execute_with(
        &db.conn,
        "INSERT INTO tasks (id, title, description, due_at, created_at, updated_at, priority, completed_at, project_id, order_index, metadata, recurrence_type, recurrence_interval, recurrence_parent_id)
         VALUES (?1, ?2, ?3, ?4, ?5, ?6, ?7, ?8, ?9, ?10, ?11, ?12, ?13, ?14)",
        &params,
    ) {
        return Err(describe_error("Failed to create task from template: ", &e));
    }
    fetch_task(&db.conn, id.as_str())
}

} // verus!
