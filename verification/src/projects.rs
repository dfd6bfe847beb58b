//! Projects.

use vstd::prelude::*;
use crate::text::begins_with;
use crate::error::listing_failure;
use crate::clock::now;
use crate::db::DbConnection;
use crate::ids::new_id;
use crate::rows::first_row;
use crate::rows::get_i64;
use crate::rows::get_opt_text;
use crate::rows::get_text;
use crate::rows::int_at;
use crate::rows::opt_text_at;
use crate::rows::opt_view;
use crate::rows::text_at;
use crate::rows::BAD_ROW;
use crate::error::describe_error;
use crate::error::listing_error;
use crate::error::written;
use crate::sqlite::execute_with;
use crate::sqlite::query_rows;
use crate::sqlite::Cell;
use crate::sqlite::SqlValue;
use crate::statement::assigned_clauses;
use crate::statement::assignments;
use crate::statement::bind_opt_text;
use crate::statement::bind_text;
use crate::statement::update_spec;
use crate::statement::update_statement;
use crate::statement::Assignment;
use crate::statement::AssignmentSpec;
use crate::statement::Statement;
use crate::tasks::assign_text;
use crate::tasks::assigned_text;
use crate::text::concat;
use crate::sqlite::values;
use crate::sqlite::Datum;
use crate::statement::text_or_null;
use crate::rows::single_row;
use crate::rows::read_or;

verus! {

/// A project that tasks can belong to.
#[derive(Debug, Clone)]
pub struct Project {
    pub id: String,
    pub name: String,
    pub color: Option<String>,
    pub created_at: i64,
    pub updated_at: i64,
}

/// What the user enters to create a project.
#[derive(Debug)]
pub struct CreateProjectInput {
    pub name: String,
    pub color: Option<String>,
}

/// The fields of a project to change; a field left out stays as it is.
#[derive(Debug)]
pub struct UpdateProjectInput {
    pub name: Option<String>,
    pub color: Option<String>,
}

/// Whether a project row can be read.
pub open spec fn project_row_readable(row: Seq<Cell>) -> bool {
    &&& text_at(row, 0) is Some
    &&& text_at(row, 1) is Some
    &&& opt_text_at(row, 2) is Some
    &&& int_at(row, 3) is Some
    &&& int_at(row, 4) is Some
}

/// Whether `p` holds what `row` holds: each field is what its column
/// gives.
pub open spec fn project_reads(p: Project, row: Seq<Cell>) -> bool {
    &&& Some(p.id@) == text_at(row, 0)
    &&& Some(p.name@) == text_at(row, 1)
    &&& Some(opt_view(p.color)) == opt_text_at(row, 2)
    &&& Some(p.created_at as int) == int_at(row, 3)
    &&& Some(p.updated_at as int) == int_at(row, 4)
}

/// Reads a project from a row of the columns id, name, color, created_at,
/// updated_at.
pub fn project_from_row(row: &Vec<Cell>) -> (r: Option<Project>)
    ensures
        r is Some <==> project_row_readable(row@),
        r matches Some(p) ==> project_reads(p, row@),
{
    let id = get_text(row, 0)?;
    let name = get_text(row, 1)?;
    let color = get_opt_text(row, 2)?;
    let created_at = get_i64(row, 3)?;
    let updated_at = get_i64(row, 4)?;
    Some(Project { id, name, color, created_at, updated_at })
}

/// The projects read from `rows`, or the message for the first row that
/// cannot be read.
pub fn projects_from_rows(rows: &Vec<Vec<Cell>>) -> (r: Result<Vec<Project>, String>)
    ensures
        r matches Err(message) ==> begins_with(message@, "Row parsing error: "@),
        r is Ok <==> forall|i: int|
            0 <= i < rows@.len() ==> project_row_readable(#[trigger] rows@[i]@),
        r matches Ok(list) ==> list@.len() == rows@.len() && forall|i: int|
            0 <= i < list@.len() ==> project_reads(#[trigger] list@[i], rows@[i]@),
{
    let mut list: Vec<Project> = Vec::new();
    let mut i: usize = 0;
    while i < rows.len()
        invariant
            i <= rows@.len(),
            list@.len() == i,
            forall|j: int| 0 <= j < i ==> project_reads(#[trigger] list@[j], rows@[j]@),
            forall|j: int| 0 <= j < i ==> project_row_readable(#[trigger] rows@[j]@),
        decreases rows@.len() - i,
    {
        match project_from_row(&rows[i]) {
            Some(project) => list.push(project),
            None => {
                return Err(concat("Row parsing error: ", BAD_ROW));
            },
        }
        i += 1;
    }
    Ok(list)
}

/// All projects, oldest first.
pub fn get_projects(db: &DbConnection) -> (r: Result<Vec<Project>, String>)
    ensures
        r matches Err(message) ==> listing_failure(message@),
{
    let none: Vec<SqlValue> = Vec::new();
    match query_rows(
        &db.conn,
        "SELECT id, name, color, created_at, updated_at FROM projects ORDER BY created_at",
        &none,
    ) {
        Ok(rows) => projects_from_rows(&rows),
        Err(e) => Err(listing_error(&e)),
    }
}

/// Reads the project `id`; `prefix` is put before the reason of a failure.
fn read_project(db: &DbConnection, id: &str, prefix: &str) -> (r: Result<Project, String>)
    ensures
        r matches Err(message) ==> begins_with(message@, prefix@),
{
    let mut params: Vec<SqlValue> = Vec::new();
    params.push(bind_text(id));
    let row = single_row(
        first_row(
            &db.conn,
            "SELECT id, name, color, created_at, updated_at FROM projects WHERE id = ?1",
            &params,
        ),
        prefix,
    )?;
    read_or(project_from_row(&row), prefix)
}

/// The values bound to the insert of a new project: its id, its name, its
/// colour, and the time `now` as the time of creation and of the last change.
pub open spec fn new_project_values(id: Seq<char>, input: CreateProjectInput, now: int) -> Seq<
    Datum,
> {
    seq![
        Datum::Text(id),
        Datum::Text(input.name@),
        text_or_null(input.color),
        Datum::Integer(now),
        Datum::Integer(now)
    ]
}

/// The values bound to the insert of a new project.
pub fn new_project_parameters(id: &str, input: &CreateProjectInput, now: i64) -> (params: Vec<
    SqlValue,
>)
    ensures
        values(params@) == new_project_values(id@, *input, now as int),
{
    let mut params: Vec<SqlValue> = Vec::new();
    params.push(bind_text(id));
    params.push(bind_text(input.name.as_str()));
    params.push(bind_opt_text(&input.color));
    params.push(SqlValue::Integer(now));
    params.push(SqlValue::Integer(now));
    assert(values(params@) =~= new_project_values(id@, *input, now as int));
    params
}

/// Creates a project and hands the stored project back.
pub fn create_project(db: &DbConnection, input: CreateProjectInput) -> (r: Result<Project, String>)
    ensures
        r matches Err(message) ==> begins_with(message@, "Failed to create project: "@)
            || begins_with(message@, "Failed to fetch created project: "@),
{
    let id = new_id();
    let params = new_project_parameters(id.as_str(), &input, now());
    if let Err(e) = execute_with(
        &db.conn,
        "INSERT INTO projects (id, name, color, created_at, updated_at) VALUES (?1, ?2, ?3, ?4, ?5)",
        &params,
    ) {
        return Err(describe_error("Failed to create project: ", &e));
    }
    read_project(db, id.as_str(), "Failed to fetch created project: ")
}

/// The assignments of a project update.
pub open spec fn project_assignments(input: UpdateProjectInput) -> Seq<AssignmentSpec> {
    seq![
        AssignmentSpec { clause: "name = ?"@, value: assigned_text(input.name) },
        AssignmentSpec { clause: "color = ?"@, value: assigned_text(input.color) }
    ]
}

/// The statement that changes the project `id` as `input` says and notes
/// `now` as the time of the change; none where `input` changes nothing.
pub fn project_update(id: &str, input: &UpdateProjectInput, now: i64) -> (r: Option<Statement>)
    ensures
        match r {
            Some(statement) => Some(statement@) == update_spec(
                "UPDATE projects SET "@,
                project_assignments(*input),
                Some(now as int),
                id@,
            ),
            None => update_spec(
                "UPDATE projects SET "@,
                project_assignments(*input),
                Some(now as int),
                id@,
            ) is None,
        },
{
    let mut list: Vec<Assignment> = Vec::new();
    list.push(assign_text("name = ?", &input.name));
    list.push(assign_text("color = ?", &input.color));
    assert(assignments(list@) =~= project_assignments(*input));
    update_statement("UPDATE projects SET ", &list, Some(now), id)
}

/// Changes the project `id` as `input` says and hands the stored project
/// back.
pub fn update_project(db: &DbConnection, id: String, input: UpdateProjectInput) -> (r: Result<
    Project,
    String,
>)
    ensures
        assigned_clauses(project_assignments(input)).len() == 0 ==> (r matches Err(message)
            ==> begins_with(message@, "Project not found: "@)),
        r matches Err(message) ==> begins_with(message@, "Failed to update project: "@)
            || begins_with(message@, "Project not found: "@),
{
    if let Some(statement) = project_update(id.as_str(), &input, now()) {
        if let Err(e) = execute_with(&db.conn, statement.sql.as_str(), &statement.params) {
            return Err(describe_error("Failed to update project: ", &e));
        }
    }
    read_project(db, id.as_str(), "Project not found: ")
}

/// Removes the project `id`.
pub fn delete_project(db: &DbConnection, id: String) -> (r: Result<(), String>)
    ensures
        r matches Err(message) ==> begins_with(message@, "Failed to delete project: "@),
{
    let mut params: Vec<SqlValue> = Vec::new();
    params.push(SqlValue::Text(id));
    written(
        execute_with(
            &db.conn,
            "DELETE FROM projects WHERE id = ?1",
            &params,
        ),
        "Failed to delete project: ",
    )
}

} // verus!
