//! Export and import of the user's data. Reading and writing the file, and
//! its JSON form, are left to the caller.

use vstd::prelude::*;
use crate::text::begins_with;
use crate::error::listing_failure;
use std::collections::HashMap;
use crate::attachments::attachments_from_rows;
use crate::attachments::Attachment;
use crate::clock::now;
use crate::db::DbConnection;
use crate::projects::projects_from_rows;
use crate::projects::Project;
use crate::rows::first_row;
use crate::rows::flag_of;
use crate::rows::BAD_ROW;
use crate::settings::settings_from_rows;
use crate::settings::settings_map;
use crate::settings::Setting;
use crate::sqlite::begin_transaction;
use crate::sqlite::commit_transaction;
use crate::error::describe_error;
use crate::error::listing_error;
use crate::error::said;
use crate::attachments::attachment_reads;
use crate::attachments::attachment_row_readable;
use crate::projects::project_reads;
use crate::projects::project_row_readable;
use crate::rows::text_at;
use crate::settings::setting_row_readable;
use crate::settings::settings_entries;
use crate::statement::flag;
use crate::subtasks::subtask_reads;
use crate::subtasks::subtask_row_readable;
use crate::sqlite::execute_with;
use crate::sqlite::query_rows;
use crate::sqlite::Cell;
use crate::sqlite::Datum;
use crate::sqlite::SqlValue;
use crate::sqlite::values;
use crate::statement::bind_flag;
use crate::statement::bind_i32;
use crate::statement::bind_opt_i64;
use crate::statement::bind_opt_text;
use crate::statement::bind_text;
use crate::statement::int_or_null;
use crate::statement::text_or_null;
use crate::subtasks::subtasks_from_rows;
use crate::subtasks::Subtask;
use crate::tasks::task_from_row;
use crate::tasks::task_reads;
use crate::tasks::task_row_readable;
use crate::tasks::Task;
use crate::text::concat;

verus! {

/// How many records an import added and how many it brought up to date.
#[derive(Debug)]
pub struct ImportSummary {
    pub tasks_added: usize,
    pub tasks_updated: usize,
    pub projects_added: usize,
    pub projects_updated: usize,
}

/// Everything that an export holds.
#[derive(Debug)]
pub struct ExportData {
    pub tasks: Vec<Task>,
    pub projects: Vec<Project>,
    pub subtasks: Vec<Subtask>,
    pub attachments: Vec<Attachment>,
    pub settings: HashMap<String, String>,
    pub exported_at: i64,
}

/// The tasks read from `rows`, without their tags, or the message for the
/// first row that cannot be read.
pub fn tasks_from_rows(rows: &Vec<Vec<Cell>>) -> (r: Result<Vec<Task>, String>)
    ensures
        r matches Err(message) ==> begins_with(message@, "Row parsing error: "@),
        r is Ok <==> forall|i: int| 0 <= i < rows@.len() ==> task_row_readable(#[trigger] rows@[i]@),
        r matches Ok(list) ==> list@.len() == rows@.len() && forall|i: int|
            0 <= i < list@.len() ==> task_reads(#[trigger] list@[i], rows@[i]@),
{
    let mut list: Vec<Task> = Vec::new();
    let mut i: usize = 0;
    while i < rows.len()
        invariant
            i <= rows@.len(),
            list@.len() == i,
            forall|j: int| 0 <= j < i ==> task_reads(#[trigger] list@[j], rows@[j]@),
            forall|j: int| 0 <= j < i ==> task_row_readable(#[trigger] rows@[j]@),
        decreases rows@.len() - i,
    {
        match task_from_row(&rows[i]) {
            Some(task) => list.push(task),
            None => {
                return Err(concat("Row parsing error: ", BAD_ROW));
            },
        }
        i += 1;
    }
    Ok(list)
}

/// Lists all tasks, by position and then by age.
pub const EXPORT_TASKS: &'static str =
    "SELECT id, title, description, due_at, created_at, updated_at, priority, completed_at, project_id, order_index, metadata, recurrence_type, recurrence_interval, recurrence_parent_id FROM tasks ORDER BY order_index, created_at";

/// Lists all projects, oldest first.
pub const EXPORT_PROJECTS: &'static str =
    "SELECT id, name, color, created_at, updated_at FROM projects ORDER BY created_at";

/// Lists all settings.
pub const EXPORT_SETTINGS: &'static str = "SELECT key, value FROM settings";

/// Lists all subtasks, by id.
pub const EXPORT_SUBTASKS: &'static str =
    "SELECT id, task_id, title, completed FROM subtasks ORDER BY id";

/// Lists all attachments, oldest first.
pub const EXPORT_ATTACHMENTS: &'static str =
    "SELECT id, task_id, filename, path, mime, size, created_at FROM attachments ORDER BY created_at";

/// The tables that an export lists.
#[derive(Clone, Copy, Debug, PartialEq, Eq, Structural)]
pub enum Exported {
    Tasks,
    Projects,
    Settings,
    Subtasks,
    Attachments,
}

/// The listing of a table for the export.
pub open spec fn export_listing_spec(table: Exported) -> Seq<char> {
    match table {
        Exported::Tasks => EXPORT_TASKS@,
        Exported::Projects => EXPORT_PROJECTS@,
        Exported::Settings => EXPORT_SETTINGS@,
        Exported::Subtasks => EXPORT_SUBTASKS@,
        Exported::Attachments => EXPORT_ATTACHMENTS@,
    }
}

/// The listing of a table for the export.
pub fn export_listing(table: Exported) -> (sql: &'static str)
    ensures
        sql@ == export_listing_spec(table),
{
    match table {
        Exported::Tasks => EXPORT_TASKS,
        Exported::Projects => EXPORT_PROJECTS,
        Exported::Settings => EXPORT_SETTINGS,
        Exported::Subtasks => EXPORT_SUBTASKS,
        Exported::Attachments => EXPORT_ATTACHMENTS,
    }
}

/// The rows of the five listings of an export, as SQLite gave them.
#[derive(Debug)]
pub struct ExportRows {
    pub tasks: Vec<Vec<Cell>>,
    pub projects: Vec<Vec<Cell>>,
    pub settings: Vec<Vec<Cell>>,
    pub subtasks: Vec<Vec<Cell>>,
    pub attachments: Vec<Vec<Cell>>,
}

/// Whether every row of the five listings can be read.
pub open spec fn exportable(rows: ExportRows) -> bool {
    &&& forall|i: int| 0 <= i < rows.tasks@.len() ==> task_row_readable(#[trigger] rows.tasks@[i]@)
    &&& forall|i: int|
        0 <= i < rows.projects@.len() ==> project_row_readable(#[trigger] rows.projects@[i]@)
    &&& forall|i: int|
        0 <= i < rows.settings@.len() ==> setting_row_readable(#[trigger] rows.settings@[i]@)
    &&& forall|i: int|
        0 <= i < rows.subtasks@.len() ==> subtask_row_readable(#[trigger] rows.subtasks@[i]@)
    &&& forall|i: int|
        0 <= i < rows.attachments@.len() ==> attachment_row_readable(
            #[trigger] rows.attachments@[i]@,
        )
}

/// Whether `list` holds the settings of `rows`, one for each row, in order.
pub open spec fn settings_read(list: Seq<Setting>, rows: Seq<Vec<Cell>>) -> bool {
    list.len() == rows.len() && forall|i: int|
        0 <= i < list.len() ==> Some((#[trigger] list[i]).key@) == text_at(rows[i]@, 0) && Some(
            list[i].value@,
        ) == text_at(rows[i]@, 1)
}

/// Whether `export` is the export of `rows` made at the time `at`: it holds
/// one task, project, subtask and attachment for each row of its listing,
/// once, in the order of the rows, each with what its row holds (the tasks
/// without tags), and the settings of the rows, of which a later one
/// replaces an earlier one with the same key.
pub open spec fn export_of(export: ExportData, rows: ExportRows, at: int) -> bool {
    &&& export.exported_at == at
    &&& export.tasks@.len() == rows.tasks@.len()
    &&& forall|i: int|
        0 <= i < export.tasks@.len() ==> task_reads(#[trigger] export.tasks@[i], rows.tasks@[i]@)
    &&& export.projects@.len() == rows.projects@.len()
    &&& forall|i: int|
        0 <= i < export.projects@.len() ==> project_reads(
            #[trigger] export.projects@[i],
            rows.projects@[i]@,
        )
    &&& export.subtasks@.len() == rows.subtasks@.len()
    &&& forall|i: int|
        0 <= i < export.subtasks@.len() ==> subtask_reads(
            #[trigger] export.subtasks@[i],
            rows.subtasks@[i]@,
        )
    &&& export.attachments@.len() == rows.attachments@.len()
    &&& forall|i: int|
        0 <= i < export.attachments@.len() ==> attachment_reads(
            #[trigger] export.attachments@[i],
            rows.attachments@[i]@,
        )
    &&& exists|list: Seq<Setting>| #[trigger]
        settings_read(list, rows.settings@) && (vstd::std_specs::hash::obeys_key_model::<String>()
            ==> export.settings@ == settings_entries(list))
}

/// The export made of the rows of the five listings at the time
/// `exported_at`: there is one exactly where every row can be read, and it
/// is the export of these rows.
pub fn export_from(rows: &ExportRows, exported_at: i64) -> (r: Result<ExportData, String>)
    ensures
        r is Ok <==> exportable(*rows),
        r matches Ok(export) ==> export_of(export, *rows, exported_at as int),
        r matches Err(message) ==> begins_with(message@, "Row parsing error: "@),
{
    let tasks = tasks_from_rows(&rows.tasks)?;
    let projects = projects_from_rows(&rows.projects)?;
    let list = settings_from_rows(&rows.settings)?;
    let ghost settings_list = list@;
    assert(settings_read(settings_list, rows.settings@));
    let settings = settings_map(list);
    let subtasks = subtasks_from_rows(&rows.subtasks)?;
    let attachments = attachments_from_rows(&rows.attachments)?;
    Ok(ExportData { tasks, projects, subtasks, attachments, settings, exported_at })
}

/// Runs a listing without parameters.
fn listing(db: &DbConnection, sql: &str) -> (r: Result<Vec<Vec<Cell>>, String>)
    ensures
        r matches Err(message) ==> listing_failure(message@),
{
    let none: Vec<SqlValue> = Vec::new();
    match query_rows(&db.conn, sql, &none) {
        Ok(rows) => Ok(rows),
        Err(e) => Err(listing_error(&e)),
    }
}

/// Runs the five listings of an export, in the order tasks, projects,
/// settings, subtasks, attachments.
pub fn read_export_rows(db: &DbConnection) -> (r: Result<ExportRows, String>)
    ensures
        r matches Err(message) ==> listing_failure(message@),
{
    let tasks = listing(db, export_listing(Exported::Tasks))?;
    let projects = listing(db, export_listing(Exported::Projects))?;
    let settings = listing(db, export_listing(Exported::Settings))?;
    let subtasks = listing(db, export_listing(Exported::Subtasks))?;
    let attachments = listing(db, export_listing(Exported::Attachments))?;
    Ok(ExportRows { tasks, projects, settings, subtasks, attachments })
}

/// Collects everything that an export holds: all tasks (without tags and
/// reminder settings), projects, settings, subtasks and attachments, and the
/// time of the export. It runs the five listings and makes the export of
/// their rows ([`export_from`]): each record is listed once, in the order in
/// which its listing gave it.
pub fn export_data(db: &DbConnection) -> (r: Result<ExportData, String>)
    ensures
        r matches Err(message) ==> listing_failure(message@),
        r matches Ok(export) ==> exists|rows: ExportRows| #[trigger]
            exportable(rows) && export_of(export, rows, export.exported_at as int),
{
    let rows = read_export_rows(db)?;
    let r = export_from(&rows, now());
    proof {
        if r is Ok {
            assert(exportable(rows) && export_of(r->Ok_0, rows, r->Ok_0.exported_at as int));
        }
    }
    r
}

/// The values bound where an imported task brings a stored one up to date:
/// a task that the import holds as completed counts as completed at the
/// time of the import.
pub open spec fn task_refresh_values(task: Task, now: int) -> Seq<Datum> {
    seq![
        Datum::Text(task.title@),
        text_or_null(task.description),
        int_or_null(task.due_date),
        Datum::Text(task.priority@),
        if task.completed {
            Datum::Integer(now)
        } else {
            Datum::Null
        },
        text_or_null(task.project_id),
        Datum::Integer(task.order_index as int),
        Datum::Text(task.recurrence_type@),
        Datum::Integer(task.recurrence_interval as int),
        Datum::Integer(now),
        Datum::Text(task.id@)
    ]
}

/// The values bound where an imported task brings a stored one up to date.
pub fn task_refresh_parameters(task: &Task, now: i64) -> (params: Vec<SqlValue>)
    ensures
        values(params@) == task_refresh_values(*task, now as int),
{
    let mut params: Vec<SqlValue> = Vec::new();
    params.push(bind_text(task.title.as_str()));
    params.push(bind_opt_text(&task.description));
    params.push(bind_opt_i64(task.due_date));
    params.push(bind_text(task.priority.as_str()));
    params.push(
        if task.completed {
            SqlValue::Integer(now)
        } else {
            SqlValue::Null
        },
    );
    params.push(bind_opt_text(&task.project_id));
    params.push(bind_i32(task.order_index));
    params.push(bind_text(task.recurrence_type.as_str()));
    params.push(bind_i32(task.recurrence_interval));
    params.push(SqlValue::Integer(now));
    params.push(bind_text(task.id.as_str()));
    assert(values(params@) =~= task_refresh_values(*task, now as int));
    params
}

/// The values bound where an imported task is added: a task that the import
/// holds as completed counts as completed when it was last changed.
pub open spec fn task_addition_values(task: Task) -> Seq<Datum> {
    seq![
        Datum::Text(task.id@),
        Datum::Text(task.title@),
        text_or_null(task.description),
        int_or_null(task.due_date),
        Datum::Integer(task.created_at as int),
        Datum::Integer(task.updated_at as int),
        Datum::Text(task.priority@),
        if task.completed {
            Datum::Integer(task.updated_at as int)
        } else {
            Datum::Null
        },
        text_or_null(task.project_id),
        Datum::Integer(task.order_index as int),
        Datum::Null,
        Datum::Text(task.recurrence_type@),
        Datum::Integer(task.recurrence_interval as int),
        text_or_null(task.recurrence_parent_id)
    ]
}

/// The values bound where an imported task is added.
pub fn task_addition_parameters(task: &Task) -> (params: Vec<SqlValue>)
    ensures
        values(params@) == task_addition_values(*task),
{
    let mut params: Vec<SqlValue> = Vec::new();
    params.push(bind_text(task.id.as_str()));
    params.push(bind_text(task.title.as_str()));
    params.push(bind_opt_text(&task.description));
    params.push(bind_opt_i64(task.due_date));
    params.push(SqlValue::Integer(task.created_at));
    params.push(SqlValue::Integer(task.updated_at));
    params.push(bind_text(task.priority.as_str()));
    params.push(
        if task.completed {
            SqlValue::Integer(task.updated_at)
        } else {
            SqlValue::Null
        },
    );
    params.push(bind_opt_text(&task.project_id));
    params.push(bind_i32(task.order_index));
    params.push(SqlValue::Null);
    params.push(bind_text(task.recurrence_type.as_str()));
    params.push(bind_i32(task.recurrence_interval));
    params.push(bind_opt_text(&task.recurrence_parent_id));
    assert(values(params@) =~= task_addition_values(*task));
    params
}

/// What is done with an imported record.
#[derive(Clone, Copy, Debug, PartialEq, Eq, Structural)]
pub enum ImportAction {
    /// The record brings the stored one of its id up to date.
    Update,
    /// The record is added.
    Insert,
}

/// What is done with an imported record, from what the existence query
/// answered: a record whose id is stored brings the stored one up to date,
/// any other is added.
pub fn import_action(stored: bool) -> (action: ImportAction)
    ensures
        action == if stored {
            ImportAction::Update
        } else {
            ImportAction::Insert
        },
{
    if stored {
        ImportAction::Update
    } else {
        ImportAction::Insert
    }
}

/// The number of answers that are yes.
pub open spec fn count_yes(answers: Seq<bool>) -> nat
    decreases answers.len(),
{
    if answers.len() == 0 {
        0
    } else {
        count_yes(answers.drop_last()) + if answers.last() {
            1nat
        } else {
            0nat
        }
    }
}

/// One more answer counts once where it is yes.
pub proof fn lemma_count_yes_push(answers: Seq<bool>, answer: bool)
    ensures
        count_yes(answers.push(answer)) == count_yes(answers) + if answer {
            1nat
        } else {
            0nat
        },
        count_yes(answers.push(answer)) <= answers.len() + 1,
        count_yes(answers) <= answers.len(),
    decreases answers.len(),
{
    assert(answers.push(answer).drop_last() =~= answers);
    if answers.len() > 0 {
        lemma_count_yes_push(answers.drop_last(), answers.last());
        assert(answers.drop_last().push(answers.last()) =~= answers);
    }
}

/// Asks whether a project of the given id is stored.
pub const PROJECT_STORED: &'static str = "SELECT EXISTS(SELECT 1 FROM projects WHERE id = ?1)";

/// Asks whether a task of the given id is stored.
pub const TASK_STORED: &'static str = "SELECT EXISTS(SELECT 1 FROM tasks WHERE id = ?1)";

/// Brings a stored project up to date.
pub const UPDATE_PROJECT: &'static str =
    "UPDATE projects SET name = ?1, color = ?2, updated_at = ?3 WHERE id = ?4";

/// Adds a project.
pub const INSERT_PROJECT: &'static str =
    "INSERT INTO projects (id, name, color, created_at, updated_at) VALUES (?1, ?2, ?3, ?4, ?5)";

/// Brings a stored task up to date.
pub const UPDATE_TASK: &'static str =
    "UPDATE tasks SET title = ?1, description = ?2, due_at = ?3, priority = ?4, completed_at = ?5, project_id = ?6, order_index = ?7, recurrence_type = ?8, recurrence_interval = ?9, updated_at = ?10 WHERE id = ?11";

/// Adds a task.
pub const INSERT_TASK: &'static str =
    "INSERT INTO tasks (id, title, description, due_at, created_at, updated_at, priority, completed_at, project_id, order_index, metadata, recurrence_type, recurrence_interval, recurrence_parent_id) VALUES (?1, ?2, ?3, ?4, ?5, ?6, ?7, ?8, ?9, ?10, ?11, ?12, ?13, ?14)";

/// Stores a subtask in place of what is stored under its id.
pub const REPLACE_SUBTASK: &'static str =
    "INSERT OR REPLACE INTO subtasks (id, task_id, title, completed) VALUES (?1, ?2, ?3, ?4)";

/// Stores a setting in place of what is stored under its key.
pub const REPLACE_SETTING: &'static str =
    "INSERT OR REPLACE INTO settings (key, value) VALUES (?1, ?2)";

/// The statement for an imported project.
pub fn project_statement(action: ImportAction) -> (sql: &'static str)
    ensures
        sql@ == match action {
            ImportAction::Update => UPDATE_PROJECT@,
            ImportAction::Insert => INSERT_PROJECT@,
        },
{
    match action {
        ImportAction::Update => UPDATE_PROJECT,
        ImportAction::Insert => INSERT_PROJECT,
    }
}

/// The statement for an imported task.
pub fn task_statement(action: ImportAction) -> (sql: &'static str)
    ensures
        sql@ == match action {
            ImportAction::Update => UPDATE_TASK@,
            ImportAction::Insert => INSERT_TASK@,
        },
{
    match action {
        ImportAction::Update => UPDATE_TASK,
        ImportAction::Insert => INSERT_TASK,
    }
}

/// The values bound for an imported project: where it brings a stored one up
/// to date, its name and colour, the time `now` as the time of the change,
/// and its id; where it is added, its five fields.
pub open spec fn project_import_values(action: ImportAction, project: Project, now: int) -> Seq<
    Datum,
> {
    match action {
        ImportAction::Update => seq![
            Datum::Text(project.name@),
            text_or_null(project.color),
            Datum::Integer(now),
            Datum::Text(project.id@)
        ],
        ImportAction::Insert => seq![
            Datum::Text(project.id@),
            Datum::Text(project.name@),
            text_or_null(project.color),
            Datum::Integer(project.created_at as int),
            Datum::Integer(project.updated_at as int)
        ],
    }
}

/// The values bound for an imported project.
pub fn project_import_parameters(action: ImportAction, project: &Project, now: i64) -> (params:
    Vec<SqlValue>)
    ensures
        values(params@) == project_import_values(action, *project, now as int),
{
    let mut params: Vec<SqlValue> = Vec::new();
    match action {
        ImportAction::Update => {
            params.push(bind_text(project.name.as_str()));
            params.push(bind_opt_text(&project.color));
            params.push(SqlValue::Integer(now));
            params.push(bind_text(project.id.as_str()));
        },
        ImportAction::Insert => {
            params.push(bind_text(project.id.as_str()));
            params.push(bind_text(project.name.as_str()));
            params.push(bind_opt_text(&project.color));
            params.push(SqlValue::Integer(project.created_at));
            params.push(SqlValue::Integer(project.updated_at));
        },
    }
    assert(values(params@) =~= project_import_values(action, *project, now as int));
    params
}

/// The values bound for an imported task: those of
/// [`task_refresh_values`] where it brings a stored one up to date, those of
/// [`task_addition_values`] where it is added.
pub fn task_import_parameters(action: ImportAction, task: &Task, now: i64) -> (params: Vec<
    SqlValue,
>)
    ensures
        values(params@) == match action {
            ImportAction::Update => task_refresh_values(*task, now as int),
            ImportAction::Insert => task_addition_values(*task),
        },
{
    match action {
        ImportAction::Update => task_refresh_parameters(task, now),
        ImportAction::Insert => task_addition_parameters(task),
    }
}

/// The values bound for an imported subtask, in the order of its fields.
pub open spec fn subtask_import_values(subtask: Subtask) -> Seq<Datum> {
    seq![
        Datum::Text(subtask.id@),
        Datum::Text(subtask.task_id@),
        Datum::Text(subtask.title@),
        flag(subtask.completed)
    ]
}

/// The values bound for an imported subtask.
pub fn subtask_import_parameters(subtask: &Subtask) -> (params: Vec<SqlValue>)
    ensures
        values(params@) == subtask_import_values(*subtask),
{
    let mut params: Vec<SqlValue> = Vec::new();
    params.push(bind_text(subtask.id.as_str()));
    params.push(bind_text(subtask.task_id.as_str()));
    params.push(bind_text(subtask.title.as_str()));
    params.push(bind_flag(subtask.completed));
    assert(values(params@) =~= subtask_import_values(*subtask));
    params
}

/// The values bound for an imported setting: its key, then its value.
pub open spec fn setting_import_values(setting: Setting) -> Seq<Datum> {
    seq![Datum::Text(setting.key@), Datum::Text(setting.value@)]
}

/// The values bound for an imported setting.
pub fn setting_import_parameters(setting: &Setting) -> (params: Vec<SqlValue>)
    ensures
        values(params@) == setting_import_values(*setting),
{
    let mut params: Vec<SqlValue> = Vec::new();
    params.push(bind_text(setting.key.as_str()));
    params.push(bind_text(setting.value.as_str()));
    assert(values(params@) =~= setting_import_values(*setting));
    params
}

/// Whether a record of the given id is stored; `false` where that cannot be
/// found out.
fn stored(db: &DbConnection, sql: &str, id: &str) -> (known: bool) {
    let mut params: Vec<SqlValue> = Vec::new();
    params.push(bind_text(id));
    match first_row(&db.conn, sql, &params) {
        Ok(found) => flag_of(&found),
        Err(_) => false,
    }
}

/// The count of an import whose existence queries answered as given, one
/// answer for each project and each task, in order: a record counts as
/// brought up to date where the answer was yes, and as added where it was
/// no.
pub open spec fn summary_of(
    summary: ImportSummary,
    project_answers: Seq<bool>,
    task_answers: Seq<bool>,
) -> bool {
    &&& summary.projects_updated == count_yes(project_answers)
    &&& summary.projects_added == project_answers.len() - count_yes(project_answers)
    &&& summary.tasks_updated == count_yes(task_answers)
    &&& summary.tasks_added == task_answers.len() - count_yes(task_answers)
}

/// A count after one more record: one more, up to the largest count there
/// is.
pub open spec fn one_more(count: usize) -> usize {
    if count < usize::MAX {
        (count + 1) as usize
    } else {
        count
    }
}

/// A count after one more record.
pub fn next_count(count: usize) -> (next: usize)
    ensures
        next == one_more(count),
{
    if count < usize::MAX {
        count + 1
    } else {
        count
    }
}

/// The count after one more project: the counter of its action rises by one.
pub fn count_project(summary: ImportSummary, action: ImportAction) -> (counted: ImportSummary)
    ensures
        counted.tasks_added == summary.tasks_added,
        counted.tasks_updated == summary.tasks_updated,
        counted.projects_updated == if action == ImportAction::Update {
            one_more(summary.projects_updated)
        } else {
            summary.projects_updated
        },
        counted.projects_added == if action == ImportAction::Insert {
            one_more(summary.projects_added)
        } else {
            summary.projects_added
        },
{
    let mut counted = summary;
    match action {
        ImportAction::Update => {
            counted.projects_updated = next_count(counted.projects_updated);
        },
        ImportAction::Insert => {
            counted.projects_added = next_count(counted.projects_added);
        },
    }
    counted
}

/// The count after one more task: the counter of its action rises by one.
pub fn count_task(summary: ImportSummary, action: ImportAction) -> (counted: ImportSummary)
    ensures
        counted.projects_added == summary.projects_added,
        counted.projects_updated == summary.projects_updated,
        counted.tasks_updated == if action == ImportAction::Update {
            one_more(summary.tasks_updated)
        } else {
            summary.tasks_updated
        },
        counted.tasks_added == if action == ImportAction::Insert {
            one_more(summary.tasks_added)
        } else {
            summary.tasks_added
        },
{
    let mut counted = summary;
    match action {
        ImportAction::Update => {
            counted.tasks_updated = next_count(counted.tasks_updated);
        },
        ImportAction::Insert => {
            counted.tasks_added = next_count(counted.tasks_added);
        },
    }
    counted
}

/// What an import comes to, from its count and what SQLite answered to the
/// commit: the count where the commit succeeded, and otherwise the message
/// of a failed commit.
pub fn import_result(summary: ImportSummary, committed: Result<(), String>) -> (r: Result<
    ImportSummary,
    String,
>)
    ensures
        r is Ok <==> committed is Ok,
        r matches Ok(counted) ==> counted == summary,
        r matches Err(message) ==> message@ == "Failed to commit transaction: "@
            + committed->Err_0@,
        r matches Err(message) ==> begins_with(message@, "Failed to commit transaction: "@),
{
    match committed {
        Ok(()) => Ok(summary),
        Err(said) => Err(concat("Failed to commit transaction: ", said.as_str())),
    }
}

/// Imports records in one transaction. A project or task whose id is stored
/// already brings the stored one up to date; any other is added. Subtasks
/// and settings replace what is stored under their id or key. A record that
/// the database rejects is passed over, and still counted.
///
/// The import fails exactly where the transaction cannot be opened or
/// committed. On success every project and every task of the import is
/// counted once: as brought up to date where the existence query, asked when
/// the record was reached, answered yes, and as added where it answered no.
pub fn import_data(
    db: &DbConnection,
    projects: &Vec<Project>,
    tasks: &Vec<Task>,
    subtasks: &Vec<Subtask>,
    settings: &Vec<Setting>,
) -> (r: Result<ImportSummary, String>)
    ensures
        r matches Err(message) ==> begins_with(message@, "Failed to start transaction: "@)
            || begins_with(message@, "Failed to commit transaction: "@),
        r matches Ok(summary) ==> {
            &&& summary.projects_added + summary.projects_updated == projects@.len()
            &&& summary.tasks_added + summary.tasks_updated == tasks@.len()
            &&& exists|project_answers: Seq<bool>, task_answers: Seq<bool>|
                project_answers.len() == projects@.len() && task_answers.len() == tasks@.len()
                    && #[trigger] summary_of(summary, project_answers, task_answers)
        },
{
    let mut summary = ImportSummary {
        tasks_added: 0,
        tasks_updated: 0,
        projects_added: 0,
        projects_updated: 0,
    };
    let tx = match begin_transaction(&db.conn) {
        Ok(tx) => tx,
        Err(e) => {
            return Err(describe_error("Failed to start transaction: ", &e));
        },
    };
    let ghost mut project_answers: Seq<bool> = Seq::empty();
    let ghost mut task_answers: Seq<bool> = Seq::empty();
    let mut i: usize = 0;
    while i < projects.len()
        invariant
            i <= projects@.len(),
            project_answers.len() == i,
            task_answers.len() == 0,
            summary_of(summary, project_answers, task_answers),
        decreases projects@.len() - i,
    {
        let project = &projects[i];
        let known = stored(db, PROJECT_STORED, project.id.as_str());
        let action = import_action(known);
        let params = project_import_parameters(action, project, now());
        let _ = execute_with(&db.conn, project_statement(action), &params);
        proof {
            lemma_count_yes_push(project_answers, known);
            project_answers = project_answers.push(known);
        }
        summary = count_project(summary, action);
        i += 1;
    }
    let mut k: usize = 0;
    while k < tasks.len()
        invariant
            k <= tasks@.len(),
            project_answers.len() == projects@.len(),
            task_answers.len() == k,
            summary_of(summary, project_answers, task_answers),
        decreases tasks@.len() - k,
    {
        let task = &tasks[k];
        let known = stored(db, TASK_STORED, task.id.as_str());
        let action = import_action(known);
        let params = task_import_parameters(action, task, now());
        let _ = execute_with(&db.conn, task_statement(action), &params);
        proof {
            lemma_count_yes_push(task_answers, known);
            task_answers = task_answers.push(known);
        }
        summary = count_task(summary, action);
        k += 1;
    }
    let mut s: usize = 0;
    while s < subtasks.len()
        invariant
            s <= subtasks@.len(),
        decreases subtasks@.len() - s,
    {
        let params = subtask_import_parameters(&subtasks[s]);
        let _ = execute_with(&db.conn, REPLACE_SUBTASK, &params);
        s += 1;
    }
    let mut v: usize = 0;
    while v < settings.len()
        invariant
            v <= settings@.len(),
        decreases settings@.len() - v,
    {
        let params = setting_import_parameters(&settings[v]);
        let _ = execute_with(&db.conn, REPLACE_SETTING, &params);
        v += 1;
    }
    proof {
        lemma_count_yes_push(project_answers, true);
        lemma_count_yes_push(task_answers, true);
    }
    import_result(summary, said(commit_transaction(tx)))
}

} // verus!
