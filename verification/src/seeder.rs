//! The seeder: a task table that exists and is empty gets a few example rows.

use vstd::prelude::*;
use rusqlite::Connection;
use crate::clock::now;
use crate::convergence::step_done;
use crate::error::describe_error;
use crate::error::looked_for;
use crate::error::said;
use crate::error::written;
use crate::error::InitError;
use crate::error::InitStage;
use crate::ids::new_id;
use crate::model::has_table;
use crate::numbers::shift;
use crate::numbers::shifted;
use crate::model::insert_rows;
use crate::model::row_count;
use crate::model::Tables;
use crate::reconciler::table_exists;
use crate::schema::CoreTable;
use crate::sqlite::begin_transaction;
use crate::sqlite::commit_transaction;
use crate::sqlite::execute_with;
use crate::sqlite::query_integer;
use crate::sqlite::SqlValue;
use crate::sqlite::Datum;
use crate::sqlite::values;

verus! {

/// The seconds of one day.
pub const DAY: i64 = 86400;

/// The number of example rows.
pub const SEED_COUNT: usize = 5;

/// An example task as contracts see it.
pub struct SeedRow {
    pub title: Seq<char>,
    pub completed: bool,
    pub due_at: int,
    pub priority: Seq<char>,
}

/// An example task.
#[derive(Clone, Debug)]
pub struct SeedTask {
    pub title: String,
    pub completed: bool,
    pub due_at: i64,
    pub priority: String,
}

impl View for SeedTask {
    type V = SeedRow;

    open spec fn view(&self) -> SeedRow {
        SeedRow {
            title: self.title@,
            completed: self.completed,
            due_at: self.due_at as int,
            priority: self.priority@,
        }
    }
}

/// The example rows for a database seeded at `now`.
pub open spec fn seed_rows(now: int) -> Seq<SeedRow> {
    seq![
        SeedRow {
            title: "Complete project setup"@,
            completed: false,
            due_at: now,
            priority: "high"@,
        },
        SeedRow {
            title: "Review design mockups"@,
            completed: false,
            due_at: shifted(now, 172800int),
            priority: "medium"@,
        },
        SeedRow {
            title: "Write documentation"@,
            completed: true,
            due_at: shifted(now, -86400int),
            priority: "low"@,
        },
        SeedRow {
            title: "Schedule team meeting"@,
            completed: false,
            due_at: shifted(now, 432000int),
            priority: "medium"@,
        },
        SeedRow {
            title: "Fix bug in authentication"@,
            completed: true,
            due_at: now,
            priority: "high"@,
        }
    ]
}

/// The example rows for a database seeded at `now`.
pub fn seed_tasks(now: i64) -> (tasks: Vec<SeedTask>)
    ensures
        tasks@.map_values(|t: SeedTask| t@) == seed_rows(now as int),
        tasks@.len() == SEED_COUNT,
{
    let mut tasks: Vec<SeedTask> = Vec::new();
    tasks.push(
        SeedTask {
            title: "Complete project setup".to_string(),
            completed: false,
            due_at: now,
            priority: "high".to_string(),
        },
    );
    tasks.push(
        SeedTask {
            title: "Review design mockups".to_string(),
            completed: false,
            due_at: shift(now, 2 * DAY),
            priority: "medium".to_string(),
        },
    );
    tasks.push(
        SeedTask {
            title: "Write documentation".to_string(),
            completed: true,
            due_at: shift(now, -DAY),
            priority: "low".to_string(),
        },
    );
    tasks.push(
        SeedTask {
            title: "Schedule team meeting".to_string(),
            completed: false,
            due_at: shift(now, 5 * DAY),
            priority: "medium".to_string(),
        },
    );
    tasks.push(
        SeedTask {
            title: "Fix bug in authentication".to_string(),
            completed: true,
            due_at: now,
            priority: "high".to_string(),
        },
    );
    assert(tasks@.map_values(|t: SeedTask| t@) =~= seed_rows(now as int));
    tasks
}

/// The values bound to the insert of one example row, in the order of the
/// statement's columns: id, title, description, due date, the two timestamps,
/// priority, completion time, project, position, metadata.
pub open spec fn seed_values(id: Seq<char>, row: SeedRow, now: int) -> Seq<Datum> {
    seq![
        Datum::Text(id),
        Datum::Text(row.title),
        Datum::Null,
        Datum::Integer(row.due_at),
        Datum::Integer(now),
        Datum::Integer(now),
        Datum::Text(row.priority),
        if row.completed {
            Datum::Integer(now)
        } else {
            Datum::Null
        },
        Datum::Null,
        Datum::Integer(0),
        Datum::Null
    ]
}

/// The values bound to the insert of one example row.
pub fn seed_parameters(id: String, task: &SeedTask, now: i64) -> (params: Vec<SqlValue>)
    ensures
        values(params@) == seed_values(id@, task@, now as int),
{
    let mut params: Vec<SqlValue> = Vec::new();
    params.push(SqlValue::Text(id));
    params.push(SqlValue::Text(task.title.clone()));
    params.push(SqlValue::Null);
    params.push(SqlValue::Integer(task.due_at));
    params.push(SqlValue::Integer(now));
    params.push(SqlValue::Integer(now));
    params.push(SqlValue::Text(task.priority.clone()));
    params.push(
        if task.completed {
            SqlValue::Integer(now)
        } else {
            SqlValue::Null
        },
    );
    params.push(SqlValue::Null);
    params.push(SqlValue::Integer(0));
    params.push(SqlValue::Null);
    assert(values(params@) =~= seed_values(id@, task@, now as int));
    params
}

/// When the seeder runs: the task table exists and holds no row.
pub open spec fn seed_due(table_exists: bool, rows: int) -> bool {
    table_exists && rows <= 0
}

/// Whether example rows have to be written.
pub fn should_seed(table_exists: bool, rows: i64) -> (due: bool)
    ensures
        due == seed_due(table_exists, rows as int),
{
    table_exists && rows <= 0
}

/// The tables after the seeding step.
pub open spec fn seed_spec(tables: Tables) -> Tables {
    if seed_due(has_table(tables, CoreTable::Tasks), row_count(tables, CoreTable::Tasks) as int) {
        insert_rows(tables, CoreTable::Tasks, SEED_COUNT as nat)
    } else {
        tables
    }
}

/// What the seeder found and did.
#[derive(Clone, Copy, Debug, PartialEq, Eq, Structural)]
pub struct Seeding {
    /// Whether the task table exists.
    pub table_exists: bool,
    /// The rows found in it; 0 where it does not exist.
    pub rows: i64,
    /// Whether the example rows were written.
    pub seeded: bool,
}

/// Counts the rows of the task table.
pub const COUNT_TASKS: &'static str = "SELECT COUNT(*) FROM tasks";

/// Writes one example row; its values are those of [`seed_values`].
pub const INSERT_SEED_TASK: &'static str =
    "INSERT INTO tasks (id, title, description, due_at, created_at, updated_at, priority, completed_at, project_id, order_index, metadata)
             VALUES (?1, ?2, ?3, ?4, ?5, ?6, ?7, ?8, ?9, ?10, ?11)";

/// The query that counts the rows of the task table.
pub fn task_count_query() -> (sql: &'static str)
    ensures
        sql@ == COUNT_TASKS@,
{
    COUNT_TASKS
}

/// The statement that writes one example row.
pub fn seed_statement() -> (sql: &'static str)
    ensures
        sql@ == INSERT_SEED_TASK@,
{
    INSERT_SEED_TASK
}

/// What became of the steps of the seeder: the look for the task table, the
/// count of its rows, the opening of the transaction, the inserts and the
/// commit. A step that failed holds what SQLite said; a step that was not
/// tried holds nothing.
#[derive(Debug)]
pub struct SeedSteps {
    /// Whether the task table was found.
    pub looked: Result<bool, String>,
    /// The rows counted in it.
    pub counted: Option<Result<i64, String>>,
    /// The opening of the transaction.
    pub begun: Option<Result<(), String>>,
    /// The number of example rows whose insert was accepted.
    pub inserted: usize,
    /// What SQLite said to the insert that it rejected.
    pub rejected: Option<String>,
    /// The commit.
    pub committed: Option<Result<(), String>>,
}

/// Each step was tried exactly where it was due and the steps before it
/// succeeded: the rows are counted where the table was found; the
/// transaction is opened where the count came back and calls for seeding;
/// the rows are inserted one after the other until one is rejected or all
/// are in; the commit is tried where all are in.
pub open spec fn seeded_in_order(steps: SeedSteps) -> bool {
    &&& (steps.counted is Some <==> steps.looked == Ok::<bool, String>(true))
    &&& (steps.begun is Some <==> (steps.counted matches Some(Ok(rows)) && seed_due(
        true,
        rows as int,
    )))
    &&& (!step_done(steps.begun) ==> steps.inserted == 0 && steps.rejected is None)
    &&& steps.inserted <= SEED_COUNT
    &&& (step_done(steps.begun) ==> (steps.rejected is None <==> steps.inserted == SEED_COUNT))
    &&& (steps.committed is Some <==> (step_done(steps.begun) && steps.rejected is None))
}

/// What the seeder comes to, from what became of its steps: a report where no
/// step failed, and otherwise what the first failed step said. The report
/// says that the rows were written exactly where all of them were accepted
/// and the commit succeeded.
pub open spec fn seed_outcome(steps: SeedSteps) -> Result<Seeding, Seq<char>> {
    match steps.looked {
        Err(said) => Err(said@),
        Ok(false) => Ok(Seeding { table_exists: false, rows: 0, seeded: false }),
        Ok(true) => match steps.counted {
            Some(Err(said)) => Err(said@),
            None => Err(Seq::empty()),
            Some(Ok(rows)) => if !seed_due(true, rows as int) {
                Ok(Seeding { table_exists: true, rows, seeded: false })
            } else {
                match (steps.begun, steps.rejected, steps.committed) {
                    (Some(Err(said)), _, _) => Err(said@),
                    (Some(Ok(_)), Some(said), _) => Err(said@),
                    (Some(Ok(_)), None, Some(Err(said))) => Err(said@),
                    (Some(Ok(_)), None, Some(Ok(_))) => if steps.inserted == SEED_COUNT {
                        Ok(Seeding { table_exists: true, rows, seeded: true })
                    } else {
                        Err(Seq::empty())
                    },
                    _ => Err(Seq::empty()),
                }
            },
        },
    }
}

/// A failure of the seeder with the given message.
fn seed_failure(message: String) -> (r: Result<Seeding, InitError>)
    ensures
        r matches Err(e) && e.stage == InitStage::Seed && e.message == message,
{
    Err(InitError { stage: InitStage::Seed, message })
}

/// What the seeder comes to, from what became of its steps.
pub fn seed_result(steps: &SeedSteps) -> (r: Result<Seeding, InitError>)
    ensures
        match r {
            Ok(done) => seed_outcome(*steps) == Ok::<Seeding, Seq<char>>(done),
            Err(e) => e.stage == InitStage::Seed && seed_outcome(*steps) == Err::<
                Seeding,
                Seq<char>,
            >(e.message@),
        },
{
    match &steps.looked {
        Err(said) => seed_failure(said.clone()),
        Ok(false) => Ok(Seeding { table_exists: false, rows: 0, seeded: false }),
        Ok(true) => match &steps.counted {
            Some(Err(said)) => seed_failure(said.clone()),
            None => seed_failure(String::new()),
            Some(Ok(rows)) => if !should_seed(true, *rows) {
                Ok(Seeding { table_exists: true, rows: *rows, seeded: false })
            } else {
                match (&steps.begun, &steps.rejected, &steps.committed) {
                    (Some(Err(said)), _, _) => seed_failure(said.clone()),
                    (Some(Ok(_)), Some(said), _) => seed_failure(said.clone()),
                    (Some(Ok(_)), None, Some(Err(said))) => seed_failure(said.clone()),
                    (Some(Ok(_)), None, Some(Ok(_))) => if steps.inserted == SEED_COUNT {
                        Ok(Seeding { table_exists: true, rows: *rows, seeded: true })
                    } else {
                        seed_failure(String::new())
                    },
                    _ => seed_failure(String::new()),
                }
            },
        },
    }
}

/// Takes the steps of the seeder: looks for the task table, counts its rows
/// and, where it exists and is empty, writes the example rows in one
/// transaction. The first step that fails is the last that is tried; a
/// transaction that is not committed rolls back, so the rows are written all
/// or not at all.
pub fn run_seed_steps(conn: &Connection) -> (steps: SeedSteps)
    ensures
        seeded_in_order(steps),
{
    let mut steps = SeedSteps {
        looked: looked_for(table_exists(conn, CoreTable::Tasks)),
        counted: None,
        begun: None,
        inserted: 0,
        rejected: None,
        committed: None,
    };
    match &steps.looked {
        Ok(true) => {},
        _ => {
            return steps;
        },
    }
    let counted = looked_for(query_integer(conn, task_count_query()));
    let due = match &counted {
        Ok(rows) => should_seed(true, *rows),
        Err(_) => false,
    };
    steps.counted = Some(counted);
    if !due {
        return steps;
    }
    let seeded_at = now();
    let tasks = seed_tasks(seeded_at);
    let tx = match begin_transaction(conn) {
        Ok(tx) => tx,
        Err(e) => {
            steps.begun = Some(Err(describe_error("", &e)));
            return steps;
        },
    };
    steps.begun = Some(Ok(()));
    let mut i: usize = 0;
    while i < tasks.len()
        invariant
            i <= tasks@.len(),
            tasks@.len() == SEED_COUNT,
            steps.inserted == i,
            steps.rejected is None,
            steps.committed is None,
            step_done(steps.begun),
            steps.looked == Ok::<bool, String>(true),
            steps.counted matches Some(Ok(rows)) && seed_due(true, rows as int),
        decreases tasks@.len() - i,
    {
        let params = seed_parameters(new_id(), &tasks[i], seeded_at);
        match written(execute_with(conn, seed_statement(), &params), "") {
            Ok(()) => {
                steps.inserted = i + 1;
            },
            Err(said) => {
                steps.rejected = Some(said);
                return steps;
            },
        }
        i += 1;
    }
    steps.committed = Some(said(commit_transaction(tx)));
    steps
}

/// Writes the example rows in one transaction where the task table exists
/// and is empty, and reports what it found and whether it wrote them: it
/// did exactly where the table was found and no row in it. It takes the
/// steps of [`run_seed_steps`] and says what they come to ([`seed_result`]):
/// a failed insert or commit is a failure of the whole, and nothing is tried
/// after it.
pub fn seed_initial_data(conn: &Connection) -> (r: Result<Seeding, InitError>)
    ensures
        match r {
            Ok(done) => done.seeded == seed_due(done.table_exists, done.rows as int)
                && (!done.table_exists ==> done.rows == 0),
            Err(e) => e.stage == InitStage::Seed,
        },
        exists|steps: SeedSteps| #[trigger]
            seeded_in_order(steps) && match r {
                Ok(done) => seed_outcome(steps) == Ok::<Seeding, Seq<char>>(done),
                Err(e) => seed_outcome(steps) == Err::<Seeding, Seq<char>>(e.message@),
            },
{
    let steps = run_seed_steps(conn);
    assert(seeded_in_order(steps));
    seed_result(&steps)
}

} // verus!
