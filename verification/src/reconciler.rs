//! The defensive reconciler: after the engine has run, the live schema is
//! checked against a fixed list of facts and every gap is repaired directly,
//! whatever the ledger says.
//!
//! The facts: the attachment table exists and has a size column; where the
//! task table exists it has the recurrence and notification columns, and
//! beside it exist the template table, the progress table, the badge table
//! and the experience-history table, and the progress table holds the row of
//! the default user. Each fact has its own repair.

use vstd::prelude::*;
use rusqlite::Connection;
use crate::clock::now;
use crate::convergence::columns_to_add;
use crate::convergence::missing_columns;
use crate::error::InitError;
use crate::error::InitStage;
use crate::model::add_column;
use crate::model::columns_of;
use crate::model::create;
use crate::model::has_column;
use crate::model::has_default_user;
use crate::model::has_table;
use crate::model::with_default_user;
use crate::model::Tables;
use crate::schema::COUNT_DEFAULT_USER;
use crate::schema::INSERT_DEFAULT_USER;
use crate::sqlite::values;
use crate::sqlite::Datum;
use crate::error::said;
use crate::error::written;
use crate::rows::counted;
use crate::text::begins_with;
use crate::schema::core_table_list;
use crate::schema::core_tables;
use crate::schema::CoreTable;
use crate::schema::Creation;
use crate::schema::CriticalColumn;
use crate::sqlite::execute_batch;
use crate::sqlite::execute_with;
use crate::sqlite::query_integer;
use crate::sqlite::query_texts;
use crate::sqlite::SqlValue;
use crate::text::texts;

verus! {

/// One repair of the live schema.
#[derive(Clone, Copy, Debug, PartialEq, Eq, Structural)]
pub enum Repair {
    /// A missing column is added.
    AddColumn(CriticalColumn),
    /// A missing table is created, with its indexes.
    Create(Creation),
    /// The row of the default user is written into the progress table.
    DefaultUser,
}

/// What a look at the live schema found, as contracts see it. A table that
/// does not exist has no column set.
pub struct FactsSpec {
    pub attachment_columns: Option<Set<Seq<char>>>,
    pub task_columns: Option<Set<Seq<char>>>,
    pub templates_exist: bool,
    pub progress_exists: bool,
    pub badges_exist: bool,
    pub history_exists: bool,
    pub default_user_exists: bool,
}

/// What a look at the live schema found. The fields after the task columns
/// are only looked up, and only read, where the task table exists; the row
/// of the default user is only looked for where the progress table exists.
#[derive(Clone, Debug)]
pub struct SchemaFacts {
    pub attachment_columns: Option<Vec<String>>,
    pub task_columns: Option<Vec<String>>,
    pub templates_exist: bool,
    pub progress_exists: bool,
    pub badges_exist: bool,
    pub history_exists: bool,
    pub default_user_exists: bool,
}

/// The set of names in an optional list of columns.
pub open spec fn column_set(columns: Option<Vec<String>>) -> Option<Set<Seq<char>>> {
    match columns {
        Some(names) => Some(texts(names@).to_set()),
        None => None,
    }
}

impl View for SchemaFacts {
    type V = FactsSpec;

    open spec fn view(&self) -> FactsSpec {
        FactsSpec {
            attachment_columns: column_set(self.attachment_columns),
            task_columns: column_set(self.task_columns),
            templates_exist: self.templates_exist,
            progress_exists: self.progress_exists,
            badges_exist: self.badges_exist,
            history_exists: self.history_exists,
            default_user_exists: self.default_user_exists,
        }
    }
}

/// The columns that the task table must have.
pub open spec fn task_columns() -> Seq<CriticalColumn> {
    seq![
        CriticalColumn::RecurrenceType,
        CriticalColumn::RecurrenceInterval,
        CriticalColumn::RecurrenceParentId,
        CriticalColumn::ReminderMinutesBefore,
        CriticalColumn::NotificationRepeat
    ]
}

/// The repair of the attachment table: it is created where it is missing,
/// and given its size column where it lacks one.
pub open spec fn attachment_repairs(columns: Option<Set<Seq<char>>>) -> Seq<Repair> {
    match columns {
        None => seq![Repair::Create(Creation::Attachments)],
        Some(present) => if present.contains(CriticalColumn::AttachmentSize.name_spec()) {
            seq![]
        } else {
            seq![Repair::AddColumn(CriticalColumn::AttachmentSize)]
        },
    }
}

/// One repair for each column, in order.
pub open spec fn additions(columns: Seq<CriticalColumn>) -> Seq<Repair> {
    columns.map_values(|c: CriticalColumn| Repair::AddColumn(c))
}

/// The repair that creates `batch`, unless its table exists.
pub open spec fn creation_repairs(batch: Creation, exists: bool) -> Seq<Repair> {
    if exists {
        seq![]
    } else {
        seq![Repair::Create(batch)]
    }
}

/// The repair that writes the row of the default user, unless it is there.
pub open spec fn default_user_repairs(exists: bool) -> Seq<Repair> {
    if exists {
        seq![]
    } else {
        seq![Repair::DefaultUser]
    }
}

/// The repairs of the tables beside the task table, one for each fact that
/// does not hold: the template table, the progress table, the badge table,
/// the experience-history table, the row of the default user.
pub open spec fn companion_repairs(facts: FactsSpec) -> Seq<Repair> {
    creation_repairs(Creation::TaskTemplates, facts.templates_exist) + creation_repairs(
        Creation::UserProgress,
        facts.progress_exists,
    ) + creation_repairs(Creation::Badges, facts.badges_exist) + creation_repairs(
        Creation::XpHistory,
        facts.history_exists,
    ) + default_user_repairs(facts.default_user_exists)
}

/// The repairs around the task table. Where the table is missing nothing is
/// repaired here: a fresh database gets its tables from the bootstrap.
pub open spec fn task_repairs(facts: FactsSpec) -> Seq<Repair> {
    match facts.task_columns {
        None => seq![],
        Some(present) => additions(missing_columns(task_columns(), present)) + companion_repairs(
            facts,
        ),
    }
}

/// Every repair that the facts call for, in the order in which they are made.
pub open spec fn repairs_for(facts: FactsSpec) -> Seq<Repair> {
    attachment_repairs(facts.attachment_columns) + task_repairs(facts)
}

/// Whether nothing is left to repair.
pub open spec fn reconciled(facts: FactsSpec) -> bool {
    repairs_for(facts).len() == 0
}

/// What a look at `tables` finds.
pub open spec fn observe(tables: Tables) -> FactsSpec {
    FactsSpec {
        attachment_columns: if has_table(tables, CoreTable::Attachments) {
            Some(columns_of(tables, CoreTable::Attachments))
        } else {
            None
        },
        task_columns: if has_table(tables, CoreTable::Tasks) {
            Some(columns_of(tables, CoreTable::Tasks))
        } else {
            None
        },
        templates_exist: has_table(tables, CoreTable::TaskTemplates),
        progress_exists: has_table(tables, CoreTable::UserProgress),
        badges_exist: has_table(tables, CoreTable::Badges),
        history_exists: has_table(tables, CoreTable::XpHistory),
        default_user_exists: has_default_user(tables),
    }
}

/// The tables after one repair; `None` where SQLite rejects it: a column
/// that is there, or a row for a table that is not.
pub open spec fn apply_repair(tables: Tables, repair: Repair) -> Option<Tables> {
    match repair {
        Repair::AddColumn(column) => add_column(tables, column),
        Repair::Create(batch) => Some(create(tables, batch)),
        Repair::DefaultUser => if has_table(tables, CoreTable::UserProgress) {
            Some(with_default_user(tables))
        } else {
            None
        },
    }
}

/// The tables after the repairs were made in order; `None` as soon as one is
/// rejected.
pub open spec fn apply_repairs(tables: Tables, repairs: Seq<Repair>) -> Option<Tables>
    decreases repairs.len(),
{
    if repairs.len() == 0 {
        Some(tables)
    } else {
        match apply_repair(tables, repairs[0]) {
            None => None,
            Some(next) => apply_repairs(next, repairs.drop_first()),
        }
    }
}

/// The tables after reconciliation.
pub open spec fn reconcile_spec(tables: Tables) -> Option<Tables> {
    apply_repairs(tables, repairs_for(observe(tables)))
}

/// The repair of the attachment table, from the columns found on it.
pub fn plan_attachment_repairs(columns: &Option<Vec<String>>) -> (repairs: Vec<Repair>)
    ensures
        repairs@ == attachment_repairs(column_set(*columns)),
{
    let mut repairs: Vec<Repair> = Vec::new();
    match columns {
        None => {
            repairs.push(Repair::Create(Creation::Attachments));
        },
        Some(present) => {
            if !crate::text::contains_name(present, CriticalColumn::AttachmentSize.name()) {
                repairs.push(Repair::AddColumn(CriticalColumn::AttachmentSize));
            }
        },
    }
    assert(repairs@ =~= attachment_repairs(column_set(*columns)));
    repairs
}

/// The columns to add to the task table, from the columns found on it.
pub fn plan_column_repairs(present: &Vec<String>) -> (repairs: Vec<Repair>)
    ensures
        repairs@ == additions(missing_columns(task_columns(), texts(present@).to_set())),
{
    let mut wanted: Vec<CriticalColumn> = Vec::new();
    wanted.push(CriticalColumn::RecurrenceType);
    wanted.push(CriticalColumn::RecurrenceInterval);
    wanted.push(CriticalColumn::RecurrenceParentId);
    wanted.push(CriticalColumn::ReminderMinutesBefore);
    wanted.push(CriticalColumn::NotificationRepeat);
    assert(wanted@ =~= task_columns());
    let missing = columns_to_add(&wanted, present);
    let mut repairs: Vec<Repair> = Vec::new();
    let mut i: usize = 0;
    while i < missing.len()
        invariant
            i <= missing@.len(),
            repairs@ == additions(missing@.take(i as int)),
        decreases missing@.len() - i,
    {
        repairs.push(Repair::AddColumn(missing[i]));
        assert(missing@.take(i + 1) =~= missing@.take(i as int).push(missing@[i as int]));
        assert(repairs@ =~= additions(missing@.take(i + 1)));
        i += 1;
    }
    assert(missing@.take(missing@.len() as int) == missing@);
    repairs
}

/// Appends `extra` to `target`.
fn push_all(target: &mut Vec<Repair>, extra: &Vec<Repair>)
    ensures
        final(target)@ == old(target)@ + extra@,
{
    let mut i: usize = 0;
    while i < extra.len()
        invariant
            i <= extra@.len(),
            target@ == old(target)@ + extra@.take(i as int),
        decreases extra@.len() - i,
    {
        target.push(extra[i]);
        assert(extra@.take(i + 1) =~= extra@.take(i as int).push(extra@[i as int]));
        assert(target@ =~= old(target)@ + extra@.take(i + 1));
        i += 1;
    }
    assert(extra@.take(extra@.len() as int) == extra@);
}

/// The repair that creates `batch`, unless its table exists.
pub fn plan_creation(batch: Creation, exists: bool) -> (repairs: Vec<Repair>)
    ensures
        repairs@ == creation_repairs(batch, exists),
{
    let mut repairs: Vec<Repair> = Vec::new();
    if !exists {
        repairs.push(Repair::Create(batch));
    }
    assert(repairs@ =~= creation_repairs(batch, exists));
    repairs
}

/// The repair that writes the row of the default user, unless it is there.
pub fn plan_default_user(exists: bool) -> (repairs: Vec<Repair>)
    ensures
        repairs@ == default_user_repairs(exists),
{
    let mut repairs: Vec<Repair> = Vec::new();
    if !exists {
        repairs.push(Repair::DefaultUser);
    }
    assert(repairs@ =~= default_user_repairs(exists));
    repairs
}

/// The repairs of the tables beside the task table.
pub fn plan_companion_repairs(facts: &SchemaFacts) -> (repairs: Vec<Repair>)
    ensures
        repairs@ == companion_repairs(facts@),
{
    let mut repairs = plan_creation(Creation::TaskTemplates, facts.templates_exist);
    push_all(&mut repairs, &plan_creation(Creation::UserProgress, facts.progress_exists));
    push_all(&mut repairs, &plan_creation(Creation::Badges, facts.badges_exist));
    push_all(&mut repairs, &plan_creation(Creation::XpHistory, facts.history_exists));
    push_all(&mut repairs, &plan_default_user(facts.default_user_exists));
    repairs
}

/// Every repair that the facts call for, in the order in which they are made.
pub fn plan_repairs(facts: &SchemaFacts) -> (repairs: Vec<Repair>)
    ensures
        repairs@ == repairs_for(facts@),
{
    let mut repairs = plan_attachment_repairs(&facts.attachment_columns);
    match &facts.task_columns {
        None => {},
        Some(present) => {
            let columns = plan_column_repairs(present);
            push_all(&mut repairs, &columns);
            let companions = plan_companion_repairs(facts);
            push_all(&mut repairs, &companions);
        },
    }
    assert(repairs@ =~= repairs_for(facts@));
    repairs
}

/// The text put in front of SQLite's message where `repair` fails: the
/// repairs around the task table say what they were about, the repairs of
/// the attachment table and of the notification schedule say nothing.
pub open spec fn prefix_of(repair: Repair) -> Seq<char> {
    match repair {
        Repair::AddColumn(CriticalColumn::AttachmentSize) => ""@,
        Repair::AddColumn(CriticalColumn::RecurrenceType) =>
            "Failed to add recurrence_type column: "@,
        Repair::AddColumn(CriticalColumn::RecurrenceInterval) =>
            "Failed to add recurrence_interval column: "@,
        Repair::AddColumn(CriticalColumn::RecurrenceParentId) =>
            "Failed to add recurrence_parent_id column: "@,
        Repair::AddColumn(CriticalColumn::ReminderMinutesBefore) =>
            "Failed to add reminder_minutes_before column: "@,
        Repair::AddColumn(CriticalColumn::NotificationRepeat) =>
            "Failed to add notification_repeat column: "@,
        Repair::Create(Creation::TaskTemplates) => "Failed to create task_templates table: "@,
        Repair::Create(Creation::UserProgress) => "Failed to create gamification tables: "@,
        Repair::Create(Creation::Badges) => "Failed to create gamification tables: "@,
        Repair::Create(Creation::XpHistory) => "Failed to create gamification tables: "@,
        Repair::Create(_) => ""@,
        Repair::DefaultUser => "Failed to initialize user progress: "@,
    }
}

/// The text put in front of SQLite's message where `repair` fails.
pub fn failure_prefix(repair: Repair) -> (prefix: &'static str)
    ensures
        prefix@ == prefix_of(repair),
{
    match repair {
        Repair::AddColumn(CriticalColumn::AttachmentSize) => "",
        Repair::AddColumn(CriticalColumn::RecurrenceType) =>
            "Failed to add recurrence_type column: ",
        Repair::AddColumn(CriticalColumn::RecurrenceInterval) =>
            "Failed to add recurrence_interval column: ",
        Repair::AddColumn(CriticalColumn::RecurrenceParentId) =>
            "Failed to add recurrence_parent_id column: ",
        Repair::AddColumn(CriticalColumn::ReminderMinutesBefore) =>
            "Failed to add reminder_minutes_before column: ",
        Repair::AddColumn(CriticalColumn::NotificationRepeat) =>
            "Failed to add notification_repeat column: ",
        Repair::Create(Creation::TaskTemplates) => "Failed to create task_templates table: ",
        Repair::Create(Creation::UserProgress) => "Failed to create gamification tables: ",
        Repair::Create(Creation::Badges) => "Failed to create gamification tables: ",
        Repair::Create(Creation::XpHistory) => "Failed to create gamification tables: ",
        Repair::Create(_) => "",
        Repair::DefaultUser => "Failed to initialize user progress: ",
    }
}

/// Asks SQLite whether `table` exists: whether its existence query counts a
/// table.
pub fn table_exists(conn: &Connection, table: CoreTable) -> (r: Result<bool, rusqlite::Error>) {
    let count = query_integer(conn, table.existence_query().as_str())?;
    Ok(counted(count))
}

/// Asks SQLite for the columns of `table`; `None` where it does not exist.
pub fn inspect_table(conn: &Connection, table: CoreTable) -> (r: Result<
    Option<Vec<String>>,
    rusqlite::Error,
>) {
    if table_exists(conn, table)? {
        Ok(Some(query_texts(conn, table.columns_query().as_str())?))
    } else {
        Ok(None)
    }
}

/// The values bound to the insert of the default user's row: the time of
/// creation and the time of the last change, which are the same.
pub open spec fn default_user_values(now: int) -> Seq<Datum> {
    seq![Datum::Integer(now), Datum::Integer(now)]
}

/// The values bound to the insert of the default user's row.
pub fn default_user_parameters(now: i64) -> (params: Vec<SqlValue>)
    ensures
        values(params@) == default_user_values(now as int),
{
    let mut params: Vec<SqlValue> = Vec::new();
    params.push(SqlValue::Integer(now));
    params.push(SqlValue::Integer(now));
    assert(values(params@) =~= default_user_values(now as int));
    params
}

/// The statement of a repair.
pub open spec fn statement_of(repair: Repair) -> Seq<char> {
    match repair {
        Repair::AddColumn(column) => column.statement_spec(),
        Repair::Create(batch) => batch.statement_spec(),
        Repair::DefaultUser => INSERT_DEFAULT_USER@,
    }
}

/// The statement of a repair.
pub fn repair_statement(repair: Repair) -> (sql: &'static str)
    ensures
        sql@ == statement_of(repair),
{
    match repair {
        Repair::AddColumn(column) => column.statement(),
        Repair::Create(batch) => batch.statement(),
        Repair::DefaultUser => INSERT_DEFAULT_USER,
    }
}

/// What a repair comes to, from what SQLite answered to its statement:
/// success where the statement was accepted, and otherwise a failure of the
/// reconciler whose message is the prefix of the repair, then what SQLite
/// said.
pub fn repair_result(repair: Repair, outcome: Result<(), String>) -> (r: Result<(), InitError>)
    ensures
        r is Ok <==> outcome is Ok,
        r matches Err(e) ==> e.stage == InitStage::Reconcile && e.message@ == prefix_of(repair)
            + outcome->Err_0@,
        r matches Err(e) ==> begins_with(e.message@, prefix_of(repair)),
{
    match outcome {
        Ok(()) => Ok(()),
        Err(said) => Err(
            InitError {
                stage: InitStage::Reconcile,
                message: crate::text::concat(failure_prefix(repair), said.as_str()),
            },
        ),
    }
}

/// Makes one repair: runs its statement, with the current time where the
/// row of the default user is written. The message of a failure begins with
/// the prefix of the repair.
pub fn make_repair(conn: &Connection, repair: Repair) -> (r: Result<(), InitError>)
    ensures
        r matches Err(e) ==> e.stage == InitStage::Reconcile,
        r matches Err(e) ==> begins_with(e.message@, prefix_of(repair)),
{
    let outcome = match repair {
        Repair::Create(_) => said(execute_batch(conn, repair_statement(repair))),
        Repair::AddColumn(_) => {
            let none: Vec<SqlValue> = Vec::new();
            written(execute_with(conn, repair_statement(repair), &none), "")
        },
        Repair::DefaultUser => {
            let params = default_user_parameters(now());
            written(execute_with(conn, repair_statement(repair), &params), "")
        },
    };
    repair_result(repair, outcome)
}

/// Makes the repairs in order and stops at the first that fails; its failure
/// is the failure of the whole. With nothing to repair nothing is asked of
/// the database, and the call succeeds.
pub fn make_repairs(conn: &Connection, repairs: &Vec<Repair>) -> (r: Result<(), InitError>)
    ensures
        repairs@.len() == 0 ==> r is Ok,
        r matches Err(e) ==> e.stage == InitStage::Reconcile,
        r matches Err(e) ==> exists|i: int|
            0 <= i < repairs@.len() && begins_with(e.message@, prefix_of(#[trigger] repairs@[i])),
{
    let mut i: usize = 0;
    while i < repairs.len()
        invariant
            i <= repairs@.len(),
        decreases repairs@.len() - i,
    {
        make_repair(conn, repairs[i])?;
        i += 1;
    }
    Ok(())
}

/// What the reconciler found and what it did about it.
#[derive(Clone, Debug)]
pub struct Reconciliation {
    pub facts: SchemaFacts,
    pub repairs: Vec<Repair>,
}

/// Whether one of the answers is yes.
pub open spec fn any_true(answers: Seq<bool>) -> bool {
    answers.contains(true)
}

/// Whether one of the answers is yes.
pub fn any_yes(answers: &Vec<bool>) -> (yes: bool)
    ensures
        yes == any_true(answers@),
{
    let mut i: usize = 0;
    while i < answers.len()
        invariant
            i <= answers@.len(),
            forall|j: int| 0 <= j < i ==> !answers@[j],
        decreases answers@.len() - i,
    {
        if answers[i] {
            assert(answers@.contains(answers@[i as int]));
            return true;
        }
        i += 1;
    }
    false
}

/// Asks SQLite of each core table, in order, whether it exists.
pub fn look_for_core_tables(conn: &Connection) -> (r: Result<Vec<bool>, rusqlite::Error>)
    ensures
        r matches Ok(found) ==> found@.len() == core_tables().len(),
{
    let tables = core_table_list();
    let mut found: Vec<bool> = Vec::new();
    let mut i: usize = 0;
    while i < tables.len()
        invariant
            i <= tables@.len(),
            found@.len() == i,
        decreases tables@.len() - i,
    {
        found.push(table_exists(conn, tables[i])?);
        i += 1;
    }
    Ok(found)
}

/// What a look at the database came to: what was found, or a failure of the
/// reconciler that says what SQLite said.
pub fn looked_up<T>(outcome: Result<T, rusqlite::Error>) -> (r: Result<T, InitError>)
    ensures
        outcome is Ok <==> r is Ok,
        outcome matches Ok(found) ==> r == Ok::<T, InitError>(found),
        r matches Err(e) ==> e.stage == InitStage::Reconcile,
{
    match outcome {
        Ok(found) => Ok(found),
        Err(e) => Err(InitError::at(InitStage::Reconcile, "", &e)),
    }
}

/// Asks SQLite whether the progress table holds the row of the default user.
pub fn default_user_present(conn: &Connection) -> (r: Result<bool, rusqlite::Error>) {
    let count = query_integer(conn, COUNT_DEFAULT_USER)?;
    Ok(counted(count))
}

/// Checks the live schema and repairs every gap: first the attachment table,
/// then, where the task table exists, its columns, the template table, the
/// progress table, the badge table, the experience-history table and the row
/// of the default user. Each is looked at just before its repair is made;
/// the row is looked for only where the progress table was found.
///
/// On success the repairs made are exactly those that the facts found call
/// for.
pub fn reconcile(conn: &Connection) -> (r: Result<Reconciliation, InitError>)
    ensures
        match r {
            Ok(done) => done.repairs@ == repairs_for(done.facts@),
            Err(e) => e.stage == InitStage::Reconcile,
        },
{
    let attachment_columns = looked_up(inspect_table(conn, CoreTable::Attachments))?;
    let mut repairs = plan_attachment_repairs(&attachment_columns);
    make_repairs(conn, &repairs)?;
    let task_columns = looked_up(inspect_table(conn, CoreTable::Tasks))?;
    let mut templates_exist = false;
    let mut progress_exists = false;
    let mut badges_exist = false;
    let mut history_exists = false;
    let mut default_user_exists = false;
    match &task_columns {
        None => {},
        Some(present) => {
            let columns = plan_column_repairs(present);
            make_repairs(conn, &columns)?;
            push_all(&mut repairs, &columns);
            templates_exist = looked_up(table_exists(conn, CoreTable::TaskTemplates))?;
            let templates = plan_creation(Creation::TaskTemplates, templates_exist);
            make_repairs(conn, &templates)?;
            push_all(&mut repairs, &templates);
            progress_exists = looked_up(table_exists(conn, CoreTable::UserProgress))?;
            let progress = plan_creation(Creation::UserProgress, progress_exists);
            make_repairs(conn, &progress)?;
            push_all(&mut repairs, &progress);
            badges_exist = looked_up(table_exists(conn, CoreTable::Badges))?;
            let badges = plan_creation(Creation::Badges, badges_exist);
            make_repairs(conn, &badges)?;
            push_all(&mut repairs, &badges);
            history_exists = looked_up(table_exists(conn, CoreTable::XpHistory))?;
            let history = plan_creation(Creation::XpHistory, history_exists);
            make_repairs(conn, &history)?;
            push_all(&mut repairs, &history);
            if progress_exists {
                default_user_exists = looked_up(default_user_present(conn))?;
            }
            let user = plan_default_user(default_user_exists);
            make_repairs(conn, &user)?;
            push_all(&mut repairs, &user);
        },
    }
    let facts = SchemaFacts {
        attachment_columns,
        task_columns,
        templates_exist,
        progress_exists,
        badges_exist,
        history_exists,
        default_user_exists,
    };
    assert(repairs@ =~= repairs_for(facts@));
    Ok(Reconciliation { facts, repairs })
}

/// The facts that the reconciler establishes: the attachment table exists
/// and has its size column; where the task table exists it has its five
/// guarded columns, the template table, the progress table, the badge table
/// and the experience-history table exist, and the progress table holds the
/// row of the default user.
pub open spec fn converged(tables: Tables) -> bool {
    &&& has_table(tables, CoreTable::Attachments)
    &&& has_column(tables, CriticalColumn::AttachmentSize)
    &&& has_table(tables, CoreTable::Tasks) ==> {
        &&& forall|i: int|
            0 <= i < task_columns().len() ==> has_column(tables, #[trigger] task_columns()[i])
        &&& has_table(tables, CoreTable::TaskTemplates)
        &&& has_table(tables, CoreTable::UserProgress)
        &&& has_table(tables, CoreTable::Badges)
        &&& has_table(tables, CoreTable::XpHistory)
        &&& has_default_user(tables)
    }
}

/// The schema that the catalog of this application leads to: the critical
/// facts hold, and the task table and the notification schedule exist.
pub open spec fn target_schema(tables: Tables) -> bool {
    &&& converged(tables)
    &&& has_table(tables, CoreTable::Tasks)
    &&& has_table(tables, CoreTable::NotificationSchedule)
}

} // verus!
