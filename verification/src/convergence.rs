//! The convergence engine: finds the migration units that the ledger does not
//! record yet and applies each of them in a transaction of its own.

use vstd::prelude::*;
use rusqlite::Connection;
use crate::catalog::ascending;
use crate::catalog::guard_for;
use crate::catalog::sort_names;
use crate::text::str_eq;
use crate::catalog::strategy_for;
use crate::catalog::Guard;
use crate::catalog::GuardSpec;
use crate::catalog::MigrationUnit;
use crate::catalog::Strategy;
use crate::clock::now;
use crate::error::describe_error;
use crate::error::said;
use crate::error::InitError;
use crate::error::InitStage;
use crate::ledger::MigrationRecord;
use crate::model::add_column;
use crate::model::columns_of;
use crate::model::create;
use crate::model::Database;
use crate::model::ScriptEffect;
use crate::model::Tables;
use crate::schema::CriticalColumn;
use crate::sqlite::begin_transaction;
use crate::sqlite::commit_transaction;
use crate::sqlite::execute_batch;
use crate::sqlite::execute_with;
use crate::sqlite::query_texts;
use crate::sqlite::SqlValue;
use crate::text::contains_name;
use crate::text::texts;

verus! {

/// A migration unit as contracts see it.
pub struct UnitSpec {
    pub name: Seq<char>,
    pub body: Seq<char>,
}

impl View for MigrationUnit {
    type V = UnitSpec;

    open spec fn view(&self) -> UnitSpec {
        UnitSpec { name: self.name@, body: self.body@ }
    }
}

/// The units of a catalog as contracts see them.
pub open spec fn units(catalog: Seq<MigrationUnit>) -> Seq<UnitSpec> {
    catalog.map_values(|u: MigrationUnit| u@)
}

/// The names of a list of units, in order.
pub open spec fn unit_names(catalog: Seq<UnitSpec>) -> Seq<Seq<char>> {
    catalog.map_values(|u: UnitSpec| u.name)
}

/// The units of `catalog` whose names are not among `applied`, in catalog
/// order.
pub open spec fn pending_units(catalog: Seq<UnitSpec>, applied: Seq<Seq<char>>) -> Seq<UnitSpec> {
    catalog.filter(|u: UnitSpec| !applied.contains(u.name))
}

/// Filtering the pending units commutes with appending one unit.
pub proof fn lemma_pending_push(catalog: Seq<UnitSpec>, applied: Seq<Seq<char>>, unit: UnitSpec)
    ensures
        pending_units(catalog.push(unit), applied) == if applied.contains(unit.name) {
            pending_units(catalog, applied)
        } else {
            pending_units(catalog, applied).push(unit)
        },
{
    reveal(Seq::filter);
    assert(catalog.push(unit).drop_last() =~= catalog);
}

/// Nothing is pending of an empty catalog.
pub proof fn lemma_empty_catalog(catalog: Seq<UnitSpec>, applied: Seq<Seq<char>>)
    requires
        catalog.len() == 0,
    ensures
        pending_units(catalog, applied).len() == 0,
        unit_names(pending_units(catalog, applied)).len() == 0,
{
    reveal(Seq::filter);
}

/// The pending set: the units of `catalog` that `applied` does not name, in
/// catalog order.
pub fn pending(catalog: &Vec<MigrationUnit>, applied: &Vec<String>) -> (todo: Vec<MigrationUnit>)
    ensures
        units(todo@) == pending_units(units(catalog@), texts(applied@)),
{
    let mut todo: Vec<MigrationUnit> = Vec::new();
    let mut i: usize = 0;
    while i < catalog.len()
        invariant
            i <= catalog@.len(),
            units(todo@) == pending_units(units(catalog@).take(i as int), texts(applied@)),
        decreases catalog@.len() - i,
    {
        proof {
            let before = units(catalog@).take(i as int);
            assert(units(catalog@).take(i + 1) == before.push(units(catalog@)[i as int]));
            lemma_pending_push(before, texts(applied@), units(catalog@)[i as int]);
        }
        if !contains_name(applied, catalog[i].name.as_str()) {
            let ghost old_todo = todo@;
            let unit = MigrationUnit { name: catalog[i].name.clone(), body: catalog[i].body.clone() };
            todo.push(unit);
            assert(units(todo@) =~= units(old_todo).push(catalog@[i as int]@));
        }
        i += 1;
    }
    assert(units(catalog@).take(catalog@.len() as int) == units(catalog@));
    todo
}

/// The columns of `wanted` that are not among `present`, in order.
pub open spec fn missing_columns(wanted: Seq<CriticalColumn>, present: Set<Seq<char>>) -> Seq<
    CriticalColumn,
> {
    wanted.filter(|c: CriticalColumn| !present.contains(c.name_spec()))
}

/// Filtering the missing columns commutes with appending one column.
pub proof fn lemma_missing_push(
    wanted: Seq<CriticalColumn>,
    present: Set<Seq<char>>,
    column: CriticalColumn,
)
    ensures
        missing_columns(wanted.push(column), present) == if present.contains(column.name_spec()) {
            missing_columns(wanted, present)
        } else {
            missing_columns(wanted, present).push(column)
        },
{
    reveal(Seq::filter);
    assert(wanted.push(column).drop_last() =~= wanted);
}

/// The columns of `wanted` that a look at the table did not find, in order.
pub fn columns_to_add(wanted: &Vec<CriticalColumn>, existing: &Vec<String>) -> (missing: Vec<
    CriticalColumn,
>)
    ensures
        missing@ == missing_columns(wanted@, texts(existing@).to_set()),
{
    let ghost present = texts(existing@).to_set();
    let mut missing: Vec<CriticalColumn> = Vec::new();
    let mut i: usize = 0;
    while i < wanted.len()
        invariant
            i <= wanted@.len(),
            present == texts(existing@).to_set(),
            missing@ == missing_columns(wanted@.take(i as int), present),
        decreases wanted@.len() - i,
    {
        proof {
            assert(wanted@.take(i + 1) == wanted@.take(i as int).push(wanted@[i as int]));
            lemma_missing_push(wanted@.take(i as int), present, wanted@[i as int]);
        }
        if !contains_name(existing, wanted[i].name()) {
            missing.push(wanted[i]);
        }
        i += 1;
    }
    assert(wanted@.take(wanted@.len() as int) == wanted@);
    missing
}

/// The tables after each of `columns` was added in turn; `None` as soon as
/// SQLite rejects one.
pub open spec fn add_columns(tables: Tables, columns: Seq<CriticalColumn>) -> Option<Tables>
    decreases columns.len(),
{
    if columns.len() == 0 {
        Some(tables)
    } else {
        match add_column(tables, columns[0]) {
            None => None,
            Some(next) => add_columns(next, columns.drop_first()),
        }
    }
}

/// The tables after a guarded unit: the columns that a look at the table
/// shows missing are added, then the creation batch is run.
pub open spec fn run_guard(tables: Tables, guard: GuardSpec) -> Option<Tables> {
    let missing = missing_columns(guard.columns, columns_of(tables, guard.table));
    match add_columns(tables, missing) {
        None => None,
        Some(extended) => Some(
            match guard.creation {
                Some(batch) => create(extended, batch),
                None => extended,
            },
        ),
    }
}

/// The tables after the schema change of one unit.
pub open spec fn run_unit(tables: Tables, unit: UnitSpec, script: ScriptEffect) -> Option<Tables> {
    match guard_for(unit.name) {
        Some(guard) => run_guard(tables, guard),
        None => script(unit.body, tables),
    }
}

/// The database after one unit was applied and recorded. Where the schema
/// change or the record is rejected the transaction rolls back: `None`, and
/// the database stays as it was.
pub open spec fn apply_unit_spec(db: Database, unit: UnitSpec, script: ScriptEffect) -> Option<
    Database,
> {
    match run_unit(db.tables, unit, script) {
        None => None,
        Some(tables) => match crate::model::record(db.ledger, unit.name) {
            None => None,
            Some(ledger) => Some(Database { tables, ledger }),
        },
    }
}

/// The database after the units were applied in order, and whether all of
/// them succeeded. The first failure ends the run; what was committed before
/// it stays.
pub open spec fn apply_all(db: Database, todo: Seq<UnitSpec>, script: ScriptEffect) -> (
    Database,
    bool,
)
    decreases todo.len(),
{
    if todo.len() == 0 {
        (db, true)
    } else {
        match apply_unit_spec(db, todo[0], script) {
            None => (db, false),
            Some(next) => apply_all(next, todo.drop_first(), script),
        }
    }
}

/// Runs the schema change of a guarded unit.
fn run_guarded(conn: &Connection, guard: &Guard) -> (r: Result<(), rusqlite::Error>) {
    let existing = query_texts(conn, guard.table.columns_query().as_str())?;
    let missing = columns_to_add(&guard.columns, &existing);
    let no_parameters: Vec<SqlValue> = Vec::new();
    let mut i: usize = 0;
    while i < missing.len()
        invariant
            i <= missing@.len(),
        decreases missing@.len() - i,
    {
        execute_with(conn, missing[i].statement(), &no_parameters)?;
        i += 1;
    }
    match guard.creation {
        Some(batch) => execute_batch(conn, batch.statement()),
        None => Ok(()),
    }
}

/// What became of the four steps of applying one unit: opening the
/// transaction, the schema change, the ledger record, the commit. A step that
/// failed holds what SQLite said; a step that was not tried holds nothing.
#[derive(Debug)]
pub struct UnitSteps {
    pub begun: Result<(), String>,
    pub changed: Option<Result<(), String>>,
    pub recorded: Option<Result<(), String>>,
    pub committed: Option<Result<(), String>>,
}

/// Whether a step was tried and succeeded.
pub open spec fn step_done(step: Option<Result<(), String>>) -> bool {
    step matches Some(Ok(_))
}

/// Each step was tried exactly where the step before it succeeded: nothing
/// is tried after a failure, and nothing is left out after a success.
pub open spec fn tried_in_order(steps: UnitSteps) -> bool {
    &&& (steps.changed is Some <==> steps.begun is Ok)
    &&& (steps.recorded is Some <==> step_done(steps.changed))
    &&& (steps.committed is Some <==> step_done(steps.recorded))
}

/// Whether the unit was applied: all four steps succeeded.
pub open spec fn unit_applied(steps: UnitSteps) -> bool {
    &&& steps.begun is Ok
    &&& step_done(steps.changed)
    &&& step_done(steps.recorded)
    &&& step_done(steps.committed)
}

/// What the first step that failed said; the empty text where none failed.
pub open spec fn unit_failure(steps: UnitSteps) -> Seq<char> {
    match steps.begun {
        Err(said) => said@,
        Ok(_) => match steps.changed {
            Some(Err(said)) => said@,
            _ => match steps.recorded {
                Some(Err(said)) => said@,
                _ => match steps.committed {
                    Some(Err(said)) => said@,
                    _ => Seq::empty(),
                },
            },
        },
    }
}

/// What the application of a unit comes to, from what became of its steps:
/// success exactly where all four succeeded, and otherwise a failure of the
/// migration stage that says what the first failed step said.
pub fn unit_result(steps: &UnitSteps) -> (r: Result<(), InitError>)
    ensures
        r is Ok <==> unit_applied(*steps),
        r matches Err(e) ==> e.stage == InitStage::Migration && e.message@ == unit_failure(*steps),
{
    let said = match &steps.begun {
        Err(said) => said.clone(),
        Ok(_) => match &steps.changed {
            Some(Err(said)) => said.clone(),
            _ => match &steps.recorded {
                Some(Err(said)) => said.clone(),
                _ => match &steps.committed {
                    Some(Err(said)) => said.clone(),
                    Some(Ok(_)) => match (&steps.changed, &steps.recorded) {
                        (Some(Ok(_)), Some(Ok(_))) => {
                            return Ok(());
                        },
                        _ => String::new(),
                    },
                    None => String::new(),
                },
            },
        },
    };
    Err(InitError { stage: InitStage::Migration, message: said })
}

/// Takes the steps of applying one unit: opens a transaction, runs the unit
/// by its strategy, records it in the ledger with the current time and
/// commits. The first step that fails is the last that is tried; the
/// transaction then rolls back, so the unit is still pending at the next
/// start.
pub fn run_unit_steps(conn: &Connection, unit: &MigrationUnit) -> (steps: UnitSteps)
    ensures
        tried_in_order(steps),
{
    let tx = match begin_transaction(conn) {
        Ok(tx) => tx,
        Err(e) => {
            return UnitSteps {
                begun: Err(describe_error("", &e)),
                changed: None,
                recorded: None,
                committed: None,
            };
        },
    };
    let changed = said(
        match strategy_for(unit.name.as_str()) {
            Strategy::Guarded(guard) => run_guarded(conn, &guard),
            Strategy::RunRawSql => execute_batch(conn, unit.body.as_str()),
        },
    );
    if let Err(_) = &changed {
        return UnitSteps { begun: Ok(()), changed: Some(changed), recorded: None, committed: None };
    }
    let entry = MigrationRecord { name: unit.name.clone(), applied_at: now() };
    let recorded = match crate::ledger::record(conn, entry) {
        Ok(()) => Ok(()),
        Err(e) => Err(e.message),
    };
    if let Err(_) = &recorded {
        return UnitSteps {
            begun: Ok(()),
            changed: Some(changed),
            recorded: Some(recorded),
            committed: None,
        };
    }
    let committed = said(commit_transaction(tx));
    UnitSteps {
        begun: Ok(()),
        changed: Some(changed),
        recorded: Some(recorded),
        committed: Some(committed),
    }
}

/// Applies one unit: takes its steps ([`run_unit_steps`]) and says what they
/// come to ([`unit_result`]). The unit is applied exactly where the
/// transaction was opened, the schema change and the ledger record were
/// accepted and the commit succeeded; on any failure nothing is tried after
/// the step that failed.
pub fn apply_unit(conn: &Connection, unit: &MigrationUnit) -> (r: Result<(), InitError>)
    ensures
        r matches Err(e) ==> e.stage == InitStage::Migration,
        exists|steps: UnitSteps| #[trigger]
            tried_in_order(steps) && (r is Ok <==> unit_applied(steps)) && (r matches Err(e)
                ==> e.message@ == unit_failure(steps)),
{
    let steps = run_unit_steps(conn, unit);
    assert(tried_in_order(steps));
    unit_result(&steps)
}

/// A run of the engine that stopped early.
#[derive(Debug)]
pub struct MigrationFailure {
    /// The units that were applied and recorded before the failure, in order.
    pub applied: Vec<String>,
    /// The unit that failed.
    pub unit: String,
    /// What became of its steps.
    pub steps: UnitSteps,
    /// What went wrong: what the first failed step said.
    pub error: InitError,
}

/// What a run of the engine may come to, for a catalog and the names that
/// the ledger held: on success the names of all pending units, in catalog
/// order; on failure the names of the pending units before the one that
/// failed, that unit, and what became of its steps, of which one failed and
/// none was tried after it.
pub open spec fn pending_outcome(
    r: Result<Vec<String>, MigrationFailure>,
    catalog: Seq<UnitSpec>,
    applied: Seq<Seq<char>>,
) -> bool {
    let todo = unit_names(pending_units(catalog, applied));
    match r {
        Ok(done) => texts(done@) == todo,
        Err(failure) => {
            &&& failure.applied@.len() < todo.len()
            &&& texts(failure.applied@) == todo.take(failure.applied@.len() as int)
            &&& failure.unit@ == todo[failure.applied@.len() as int]
            &&& failure.error.stage == InitStage::Migration
            &&& tried_in_order(failure.steps)
            &&& !unit_applied(failure.steps)
            &&& failure.error.message@ == unit_failure(failure.steps)
        },
    }
}

/// Whether `ordered` holds the units of `catalog` in apply order: the names
/// ascend, they are the names of the catalog, each as often as there, and
/// every unit is one of the catalog.
pub open spec fn apply_ordered(ordered: Seq<UnitSpec>, catalog: Seq<UnitSpec>) -> bool {
    &&& ascending(unit_names(ordered))
    &&& unit_names(ordered).to_multiset() == unit_names(catalog).to_multiset()
    &&& forall|i: int| 0 <= i < ordered.len() ==> catalog.contains(#[trigger] ordered[i])
}

/// The units of the catalog in apply order: by ascending name.
pub fn in_apply_order(catalog: &Vec<MigrationUnit>) -> (ordered: Vec<MigrationUnit>)
    ensures
        apply_ordered(units(ordered@), units(catalog@)),
{
    let mut names: Vec<String> = Vec::new();
    let mut i: usize = 0;
    while i < catalog.len()
        invariant
            i <= catalog@.len(),
            texts(names@) == unit_names(units(catalog@)).take(i as int),
        decreases catalog@.len() - i,
    {
        let ghost before = names@;
        names.push(catalog[i].name.clone());
        assert(texts(names@) =~= texts(before).push(catalog@[i as int].name@));
        assert(unit_names(units(catalog@)).take(i + 1) =~= unit_names(units(catalog@)).take(
            i as int,
        ).push(catalog@[i as int].name@));
        i += 1;
    }
    assert(unit_names(units(catalog@)).take(catalog@.len() as int) == unit_names(units(catalog@)));
    sort_names(&mut names);
    let mut ordered: Vec<MigrationUnit> = Vec::new();
    let mut k: usize = 0;
    while k < names.len()
        invariant
            k <= names@.len(),
            texts(names@).to_multiset() == unit_names(units(catalog@)).to_multiset(),
            unit_names(units(ordered@)) == texts(names@).take(k as int),
            forall|i: int|
                0 <= i < ordered@.len() ==> units(catalog@).contains(#[trigger] units(ordered@)[i]),
        decreases names@.len() - k,
    {
        let ghost wanted = names@[k as int]@;
        proof {
            texts(names@).to_multiset_ensures();
            unit_names(units(catalog@)).to_multiset_ensures();
            assert(texts(names@)[k as int] == wanted);
            assert(texts(names@).contains(wanted));
            assert(texts(names@).to_multiset().count(wanted) > 0);
            assert(unit_names(units(catalog@)).to_multiset().count(wanted) > 0);
            assert(unit_names(units(catalog@)).contains(wanted));
        }
        let mut j: usize = 0;
        while j < catalog.len() && !str_eq(catalog[j].name.as_str(), names[k].as_str())
            invariant
                j <= catalog@.len(),
                k < names@.len(),
                wanted == names@[k as int]@,
                forall|m: int| 0 <= m < j ==> catalog@[m].name@ != wanted,
            decreases catalog@.len() - j,
        {
            j += 1;
        }
        proof {
            if j == catalog@.len() {
                let m = choose|m: int|
                    0 <= m < unit_names(units(catalog@)).len() && unit_names(units(catalog@))[m]
                        == wanted;
                assert(catalog@[m].name@ == wanted);
                assert(false);
            }
        }
        let ghost before = ordered@;
        ordered.push(MigrationUnit { name: catalog[j].name.clone(), body: catalog[j].body.clone() });
        proof {
            assert(units(ordered@) =~= units(before).push(catalog@[j as int]@));
            assert(units(catalog@)[j as int] == catalog@[j as int]@);
            assert(unit_names(units(ordered@)) =~= unit_names(units(before)).push(wanted));
            assert(texts(names@).take(k + 1) =~= texts(names@).take(k as int).push(wanted));
            assert forall|i: int| 0 <= i < ordered@.len() implies units(catalog@).contains(
                #[trigger] units(ordered@)[i],
            ) by {
                if i < before.len() {
                    assert(units(ordered@)[i] == units(before)[i]);
                }
            }
        }
        k += 1;
    }
    assert(texts(names@).take(names@.len() as int) == texts(names@));
    ordered
}

/// Applies every unit of `catalog` that `applied` does not name, in catalog
/// order, and hands back the names of the units applied.
///
/// The first failure ends the run: the units before it stay applied, the
/// failed one stays pending, and none after it is tried. A unit fails where
/// one of its four steps fails; the failure says which, and nothing was tried
/// after it.
pub fn apply_pending(conn: &Connection, catalog: &Vec<MigrationUnit>, applied: &Vec<String>) -> (r:
    Result<Vec<String>, MigrationFailure>)
    ensures
        catalog@.len() == 0 ==> r is Ok,
        pending_outcome(r, units(catalog@), texts(applied@)),
{
    let todo = pending(catalog, applied);
    let ghost names = unit_names(units(todo@));
    proof {
        if catalog@.len() == 0 {
            lemma_empty_catalog(units(catalog@), texts(applied@));
        }
    }
    let mut done: Vec<String> = Vec::new();
    let mut i: usize = 0;
    while i < todo.len()
        invariant
            i <= todo@.len(),
            names == unit_names(units(todo@)),
            units(todo@) == pending_units(units(catalog@), texts(applied@)),
            done@.len() == i,
            texts(done@) == names.take(i as int),
        decreases todo@.len() - i,
    {
        assert(names[i as int] == todo@[i as int].name@);
        let steps = run_unit_steps(conn, &todo[i]);
        match unit_result(&steps) {
            Ok(()) => {},
            Err(error) => {
                return Err(
                    MigrationFailure { applied: done, unit: todo[i].name.clone(), steps, error },
                );
            },
        }
        let ghost before = done@;
        done.push(todo[i].name.clone());
        assert(texts(done@) =~= texts(before).push(todo@[i as int].name@));
        assert(names.take(i + 1) =~= names.take(i as int).push(names[i as int]));
        i += 1;
    }
    assert(names.take(todo@.len() as int) == names);
    Ok(done)
}

/// No two units of the list share a name.
pub open spec fn distinct_names(catalog: Seq<UnitSpec>) -> bool {
    forall|i: int, j: int| 0 <= i < j < catalog.len() ==> catalog[i].name != catalog[j].name
}

/// No column occurs twice.
pub open spec fn distinct_columns(columns: Seq<CriticalColumn>) -> bool {
    forall|i: int, j: int| 0 <= i < j < columns.len() ==> columns[i] != columns[j]
}

} // verus!
