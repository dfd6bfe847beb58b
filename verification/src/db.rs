//! Database initialisation: the startup sequence that brings the schema of a
//! database file, whatever its history, to the form the application needs.
//!
//! The sequence: make sure the ledger exists; apply the pending migration
//! units, each in its own transaction; reconcile the live schema; create the
//! baseline schema where the file is still empty; seed example rows where the
//! task table is empty. The first step that fails ends the sequence.

use vstd::prelude::*;
use rusqlite::Connection;
use std::path::PathBuf;
use crate::bootstrap::bootstrap;
use crate::bootstrap::bootstrap_due;
use crate::bootstrap::bootstrap_spec;
use crate::catalog::MigrationUnit;
use crate::convergence::apply_all;
use crate::convergence::apply_ordered;
use crate::convergence::apply_pending;
use crate::convergence::in_apply_order;
use crate::convergence::pending_outcome;
use crate::convergence::MigrationFailure;
use crate::seeder::Seeding;
use crate::convergence::pending_units;
use crate::convergence::unit_names;
use crate::convergence::units;
use crate::convergence::UnitSpec;
use crate::error::failure_of;
use crate::error::is_outcome;
use crate::error::not_tried;
use crate::error::Failure;
use crate::error::InitError;
use crate::error::InitStage;
use crate::ledger::ensure_table;
use crate::ledger::list_applied;
use crate::model::any_core_table;
use crate::model::Database;
use crate::reconciler::look_for_core_tables;
use crate::reconciler::any_true;
use crate::reconciler::any_yes;
use crate::model::ScriptEffect;
use crate::reconciler::reconcile;
use crate::reconciler::reconcile_spec;
use crate::reconciler::repairs_for;
use crate::reconciler::Reconciliation;
use crate::seeder::seed_initial_data;
use crate::seeder::seed_spec;
use crate::sqlite::open_connection;
use crate::text::texts;

verus! {

/// The one connection to the database file. Whoever holds it has the
/// database to itself.
pub struct DbConnection {
    pub conn: Connection,
}

impl DbConnection {
    /// Opens the database file at `db_path`, creating it where there is none.
    pub fn new(db_path: PathBuf) -> (r: Result<DbConnection, rusqlite::Error>) {
        let conn = open_connection(db_path)?;
        Ok(DbConnection { conn })
    }
}

/// What a run of the migration steps found and did.
#[derive(Clone, Debug)]
pub struct StartupReport {
    /// The units of the catalog in the order in which they were taken: by
    /// ascending name.
    pub catalog: Vec<MigrationUnit>,
    /// The names that the ledger held when the run began.
    pub previously_applied: Vec<String>,
    /// The units applied and recorded by this run, in order.
    pub applied: Vec<String>,
    /// For each core table, in order, whether it existed after the units
    /// were applied.
    pub core_tables_found: Vec<bool>,
    /// What the reconciler found and repaired.
    pub reconciliation: Reconciliation,
    /// Whether the baseline schema was created.
    pub bootstrapped: bool,
}

/// The database after the migration steps of one start, and whether they all
/// succeeded: the pending units, the reconciler, the bootstrap. The bootstrap
/// is due where, after the units, no core table exists and the ledger is
/// empty.
///
/// This is the plan of [`run_migrations`] over the picture of the database.
/// It stands in no executable contract: no contract says that SQLite follows
/// it.
pub open spec fn migrate_spec(db: Database, catalog: Seq<UnitSpec>, script: ScriptEffect) -> (
    Database,
    bool,
) {
    let (migrated, complete) = apply_all(db, pending_units(catalog, db.ledger), script);
    if !complete {
        (migrated, false)
    } else {
        match reconcile_spec(migrated.tables) {
            None => (migrated, false),
            Some(repaired) => (
                Database {
                    tables: bootstrap_spec(
                        repaired,
                        bootstrap_due(
                            any_core_table(migrated.tables),
                            migrated.ledger.len() == 0,
                        ),
                    ),
                    ledger: migrated.ledger,
                },
                true,
            ),
        }
    }
}

/// The database after one whole start, and whether it succeeded: the
/// migration steps, then the seeder.
pub open spec fn startup_spec(db: Database, catalog: Seq<UnitSpec>, script: ScriptEffect) -> (
    Database,
    bool,
) {
    let (migrated, complete) = migrate_spec(db, catalog, script);
    if !complete {
        (migrated, false)
    } else {
        (Database { tables: seed_spec(migrated.tables), ledger: migrated.ledger }, true)
    }
}

/// What became of the steps of a run of the migrations: the ledger table, the
/// list of recorded names, the pending units, the look for the core tables,
/// the reconciler, the bootstrap. A step that was not tried holds nothing.
#[derive(Debug)]
pub struct MigrationSteps {
    /// The units of the catalog in apply order.
    pub ordered: Vec<MigrationUnit>,
    pub ledger_ready: Result<(), InitError>,
    pub listed: Option<Result<Vec<String>, InitError>>,
    pub units: Option<Result<Vec<String>, MigrationFailure>>,
    pub core_tables: Option<Result<Vec<bool>, InitError>>,
    pub reconciled: Option<Result<Reconciliation, InitError>>,
    pub bootstrapped: Option<Result<bool, InitError>>,
}

/// Each step was tried exactly where the step before it succeeded, each
/// failure names its step, and each step did what was planned: the units
/// were taken in apply order, those that the ledger did not name were
/// applied, the repairs made are those that the facts found call for, and
/// the bootstrap ran exactly where, after the units, no core table was found
/// and the ledger held no name.
pub open spec fn migrated_in_order(steps: MigrationSteps, catalog: Seq<UnitSpec>) -> bool {
    &&& apply_ordered(units(steps.ordered@), catalog)
    &&& (steps.ledger_ready matches Err(e) ==> e.stage == InitStage::Ledger)
    &&& (steps.listed is Some <==> steps.ledger_ready is Ok)
    &&& (steps.listed matches Some(Err(e)) ==> e.stage == InitStage::Ledger)
    &&& (steps.units is Some <==> (steps.listed matches Some(Ok(_))))
    &&& (steps.units matches Some(outcome) ==> pending_outcome(
        outcome,
        units(steps.ordered@),
        texts(steps.listed->0->Ok_0@),
    ))
    &&& (steps.core_tables is Some <==> (steps.units matches Some(Ok(_))))
    &&& (steps.core_tables matches Some(Err(e)) ==> e.stage == InitStage::Bootstrap)
    &&& (steps.reconciled is Some <==> (steps.core_tables matches Some(Ok(_))))
    &&& (steps.reconciled matches Some(Ok(done)) ==> done.repairs@ == repairs_for(done.facts@))
    &&& (steps.reconciled matches Some(Err(e)) ==> e.stage == InitStage::Reconcile)
    &&& (steps.bootstrapped is Some <==> (steps.reconciled matches Some(Ok(_))))
    &&& (steps.bootstrapped matches Some(Ok(ran)) ==> ran == bootstrap_due(
        any_true(steps.core_tables->0->Ok_0@),
        steps.listed->0->Ok_0@.len() == 0 && steps.units->0->Ok_0@.len() == 0,
    ))
    &&& (steps.bootstrapped matches Some(Err(e)) ==> e.stage == InitStage::Bootstrap)
}

/// What a run of the migrations comes to, from what became of its steps: the
/// report where every step succeeded, and otherwise the failure of the first
/// step that failed.
pub open spec fn migration_outcome(steps: MigrationSteps) -> Result<StartupReport, Failure> {
    match steps.ledger_ready {
        Err(e) => Err(failure_of(e)),
        Ok(_) => match steps.listed {
            None => Err(not_tried(InitStage::Ledger)),
            Some(Err(e)) => Err(failure_of(e)),
            Some(Ok(previously_applied)) => match steps.units {
                None => Err(not_tried(InitStage::Migration)),
                Some(Err(failure)) => Err(failure_of(failure.error)),
                Some(Ok(applied)) => match steps.core_tables {
                    None => Err(not_tried(InitStage::Bootstrap)),
                    Some(Err(e)) => Err(failure_of(e)),
                    Some(Ok(core_tables_found)) => match steps.reconciled {
                        None => Err(not_tried(InitStage::Reconcile)),
                        Some(Err(e)) => Err(failure_of(e)),
                        Some(Ok(reconciliation)) => match steps.bootstrapped {
                            None => Err(not_tried(InitStage::Bootstrap)),
                            Some(Err(e)) => Err(failure_of(e)),
                            Some(Ok(bootstrapped)) => Ok(
                                StartupReport {
                                    catalog: steps.ordered,
                                    previously_applied,
                                    applied,
                                    core_tables_found,
                                    reconciliation,
                                    bootstrapped,
                                },
                            ),
                        },
                    },
                },
            },
        },
    }
}

/// The failure for a step that has no outcome.
fn untried(stage: InitStage) -> (r: Result<StartupReport, InitError>)
    ensures
        r matches Err(e) && failure_of(e) == not_tried(stage),
{
    Err(InitError { stage, message: String::new() })
}

/// What a run of the migrations comes to, from what became of its steps.
pub fn migration_result(steps: MigrationSteps) -> (r: Result<StartupReport, InitError>)
    ensures
        is_outcome(r, migration_outcome(steps)),
{
    match steps.ledger_ready {
        Err(e) => Err(e),
        Ok(_) => match steps.listed {
            None => untried(InitStage::Ledger),
            Some(Err(e)) => Err(e),
            Some(Ok(previously_applied)) => match steps.units {
                None => untried(InitStage::Migration),
                Some(Err(failure)) => Err(failure.error),
                Some(Ok(applied)) => match steps.core_tables {
                    None => untried(InitStage::Bootstrap),
                    Some(Err(e)) => Err(e),
                    Some(Ok(core_tables_found)) => match steps.reconciled {
                        None => untried(InitStage::Reconcile),
                        Some(Err(e)) => Err(e),
                        Some(Ok(reconciliation)) => match steps.bootstrapped {
                            None => untried(InitStage::Bootstrap),
                            Some(Err(e)) => Err(e),
                            Some(Ok(bootstrapped)) => Ok(
                                StartupReport {
                                    catalog: steps.ordered,
                                    previously_applied,
                                    applied,
                                    core_tables_found,
                                    reconciliation,
                                    bootstrapped,
                                },
                            ),
                        },
                    },
                },
            },
        },
    }
}

/// Takes the steps of a run of the migrations on an open connection: puts
/// the units in apply order, makes sure the ledger exists, lists what it
/// records, applies the pending units, looks for the core tables, reconciles
/// the schema and creates the baseline schema where it is due. The first step
/// that fails is the last that is tried.
pub fn run_migration_steps(conn: &Connection, catalog: &Vec<MigrationUnit>) -> (steps:
    MigrationSteps)
    ensures
        migrated_in_order(steps, units(catalog@)),
        catalog@.len() == 0 ==> !(steps.units matches Some(Err(_))),
{
    let ordered = in_apply_order(catalog);
    proof {
        units(ordered@).to_multiset_ensures();
        unit_names(units(ordered@)).to_multiset_ensures();
        unit_names(units(catalog@)).to_multiset_ensures();
    }
    let mut steps = MigrationSteps {
        ordered,
        ledger_ready: ensure_table(conn),
        listed: None,
        units: None,
        core_tables: None,
        reconciled: None,
        bootstrapped: None,
    };
    if let Err(_) = &steps.ledger_ready {
        return steps;
    }
    let listed = list_applied(conn);
    let units = match &listed {
        Ok(previously_applied) => Some(apply_pending(conn, &steps.ordered, previously_applied)),
        Err(_) => None,
    };
    let ledger_empty = match (&listed, &units) {
        (Ok(previously_applied), Some(Ok(applied))) => previously_applied.len() == 0
            && applied.len() == 0,
        _ => false,
    };
    let go_on = match &units {
        Some(Ok(_)) => true,
        _ => false,
    };
    steps.listed = Some(listed);
    steps.units = units;
    if !go_on {
        return steps;
    }
    let core_tables = match look_for_core_tables(conn) {
        Ok(found) => Ok(found),
        Err(e) => Err(InitError::at(InitStage::Bootstrap, "", &e)),
    };
    let core_table_exists = match &core_tables {
        Ok(found) => Some(any_yes(found)),
        Err(_) => None,
    };
    steps.core_tables = Some(core_tables);
    let core_table_exists = match core_table_exists {
        Some(exists) => exists,
        None => {
            return steps;
        },
    };
    let reconciled = reconcile(conn);
    let go_on = match &reconciled {
        Ok(_) => true,
        Err(_) => false,
    };
    steps.reconciled = Some(reconciled);
    if !go_on {
        return steps;
    }
    steps.bootstrapped = Some(bootstrap(conn, core_table_exists, ledger_empty));
    steps
}

/// Runs the migration steps of a start on an open connection: ledger, pending
/// units, reconciler, bootstrap. It takes the steps of
/// [`run_migration_steps`] and says what they come to
/// ([`migration_result`]): the report where every step succeeded, and
/// otherwise the failure of the step that failed, after which nothing was
/// tried.
///
/// On success the report says in which order the units were taken (by
/// ascending name), which of them were applied (exactly those that the
/// ledger did not name, in that order), which repairs were made (exactly
/// those that the facts found call for) and whether the baseline schema was
/// created (exactly where, after the units were applied, no core table was
/// found and the ledger held no name: none before the run and none from it).
///
/// A failure names the step that failed. With an empty catalog no unit is
/// applied, so no unit can fail.
pub fn run_migrations(conn: &Connection, catalog: &Vec<MigrationUnit>) -> (r: Result<
    StartupReport,
    InitError,
>)
    ensures
        match r {
            Ok(report) => {
                &&& apply_ordered(units(report.catalog@), units(catalog@))
                &&& texts(report.applied@) == unit_names(
                    pending_units(units(report.catalog@), texts(report.previously_applied@)),
                )
                &&& report.reconciliation.repairs@ == repairs_for(report.reconciliation.facts@)
                &&& report.bootstrapped == bootstrap_due(
                    any_true(report.core_tables_found@),
                    report.previously_applied@.len() == 0 && report.applied@.len() == 0,
                )
            },
            Err(e) => e.stage != InitStage::Open && e.stage != InitStage::Seed,
        },
        catalog@.len() == 0 ==> (r matches Err(e) ==> e.stage != InitStage::Migration),
        exists|steps: MigrationSteps| #[trigger]
            migrated_in_order(steps, units(catalog@)) && is_outcome(r, migration_outcome(steps)),
{
    let steps = run_migration_steps(conn, catalog);
    assert(migrated_in_order(steps, units(catalog@)));
    migration_result(steps)
}

/// What became of a start on an open connection: the run of the migrations,
/// and the seeder, which is tried only where the migrations succeeded.
#[derive(Debug)]
pub struct Startup {
    pub migration: Result<StartupReport, InitError>,
    pub seeding: Option<Result<Seeding, InitError>>,
}

/// The seeder ran exactly where the migrations succeeded; a failure of the
/// migrations is no failure of the seeder, and a failure of the seeder is
/// one.
pub open spec fn started_in_order(startup: Startup) -> bool {
    &&& (startup.seeding is Some <==> startup.migration is Ok)
    &&& (startup.migration matches Err(e) ==> e.stage != InitStage::Open && e.stage
        != InitStage::Seed)
    &&& (startup.seeding matches Some(Err(e)) ==> e.stage == InitStage::Seed)
}

/// Whether a start succeeded: the migrations and the seeder did.
pub open spec fn started(startup: Startup) -> bool {
    startup.migration is Ok && startup.seeding matches Some(Ok(_))
}

/// The failure of a start: that of the migrations, or else that of the
/// seeder.
pub open spec fn startup_failure(startup: Startup) -> Option<Failure> {
    match startup.migration {
        Err(e) => Some(failure_of(e)),
        Ok(_) => match startup.seeding {
            Some(Err(e)) => Some(failure_of(e)),
            Some(Ok(_)) => None,
            None => Some(not_tried(InitStage::Seed)),
        },
    }
}

/// Runs the whole startup sequence on an open connection: the migrations,
/// then the seeder. After a failure of the migrations, of a unit for one,
/// the seeder does not run.
pub fn start(conn: &Connection, catalog: &Vec<MigrationUnit>) -> (startup: Startup)
    ensures
        started_in_order(startup),
        catalog@.len() == 0 ==> (startup.migration matches Err(e) ==> e.stage
            != InitStage::Migration),
        exists|steps: MigrationSteps| #[trigger]
            migrated_in_order(steps, units(catalog@)) && is_outcome(
                startup.migration,
                migration_outcome(steps),
            ),
{
    let migration = run_migrations(conn, catalog);
    let seeding = match &migration {
        Ok(_) => Some(seed_initial_data(conn)),
        Err(_) => None,
    };
    Startup { migration, seeding }
}

/// What a start comes to: nothing more to say where it succeeded, and its
/// failure where it did not.
pub fn startup_result(startup: Startup) -> (r: Result<(), InitError>)
    ensures
        r is Ok <==> started(startup),
        r matches Err(e) ==> startup_failure(startup) == Some(failure_of(e)),
{
    match startup.migration {
        Err(e) => Err(e),
        Ok(_) => match startup.seeding {
            Some(Err(e)) => Err(e),
            Some(Ok(_)) => Ok(()),
            None => Err(InitError { stage: InitStage::Seed, message: String::new() }),
        },
    }
}

/// Opens the database file at `db_path` and runs the whole startup sequence
/// on it with the units of `catalog` ([`start`]). The connection is handed
/// out exactly where the file could be opened and every step succeeded; a
/// failure names the step that failed, and after a failed step nothing is
/// tried: after a failed unit the seeder does not run. With an empty catalog
/// no unit is applied, so no unit can fail.
pub fn init_db(db_path: PathBuf, catalog: &Vec<MigrationUnit>) -> (r: Result<
    DbConnection,
    InitError,
>)
    ensures
        catalog@.len() == 0 ==> (r matches Err(e) ==> e.stage != InitStage::Migration),
        (r matches Err(e) && e.stage == InitStage::Open) || exists|startup: Startup| #[trigger]
            started_in_order(startup) && (r is Ok <==> started(startup)) && (r matches Err(e)
                ==> startup_failure(startup) == Some(failure_of(e))),
{
    let db = match DbConnection::new(db_path) {
        Ok(db) => db,
        Err(e) => {
            return Err(InitError::at(InitStage::Open, "", &e));
        },
    };
    let startup = start(&db.conn, catalog);
    assert(started_in_order(startup));
    match startup_result(startup) {
        Ok(()) => Ok(db),
        Err(e) => Err(e),
    }
}

} // verus!
