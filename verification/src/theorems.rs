//! What is proved of the startup sequence as a whole, over the picture of the
//! database in [`crate::model`]: a second start changes nothing, the ledger
//! holds each name once, a lost ledger does no harm, a fresh file gets the
//! baseline schema, and seeding is done once.
//!
//! Every statement here is about [`migrate_spec`] and [`startup_spec`], the
//! sequence as the library plans it over that picture. None is about
//! `run_migrations` or `init_db` on a database file: their contracts fix the
//! plan (which units, which repairs, whether the bootstrap and the seeder
//! run) and the statements that are issued, and SQLite does the rest.

use vstd::prelude::*;
use crate::bootstrap::bootstrap_due;
use crate::model::any_core_table;
use crate::schema::core_tables;
use crate::bootstrap::bootstrap_spec;
use crate::catalog::guard_for;
use crate::convergence::UnitSpec;
use crate::convergence::add_columns;
use crate::convergence::apply_all;
use crate::convergence::missing_columns;
use crate::convergence::pending_units;
use crate::convergence::run_guard;
use crate::convergence::run_unit;
use crate::convergence::unit_names;
use crate::db::migrate_spec;
use crate::db::startup_spec;
use crate::reconciler::converged;
use crate::convergence::distinct_names;
use crate::lemmas::lemma_all_pending;
use crate::lemmas::lemma_apply_all;
use crate::lemmas::lemma_apply_all_unchanged;
use crate::lemmas::lemma_apply_single;
use crate::lemmas::lemma_bootstrap;
use crate::lemmas::lemma_converged_means_reconciled;
use crate::lemmas::lemma_create;
use crate::lemmas::lemma_create_tables;
use crate::lemmas::lemma_created_tables_are_complete;
use crate::lemmas::lemma_missing_columns;
use crate::lemmas::lemma_nothing_pending;
use crate::lemmas::lemma_pending_or_recorded;
use crate::lemmas::lemma_reconcile;
use crate::lemmas::lemma_seed_keeps_schema;
use crate::lemmas::lemma_table_names_distinct;
use crate::lemmas::lemma_task_columns;
use crate::reconciler::target_schema;
use crate::model::Database;
use crate::model::ScriptEffect;
use crate::model::TableState;
use crate::model::Tables;
use crate::model::columns_of;
use crate::model::create;
use crate::model::create_table;
use crate::model::create_tables;
use crate::model::empty_database;
use crate::model::has_column;
use crate::model::has_table;
use crate::model::ledger_unique;
use crate::model::row_count;
use crate::reconciler::Repair;
use crate::reconciler::attachment_repairs;
use crate::reconciler::observe;
use crate::reconciler::reconcile_spec;
use crate::reconciler::reconciled;
use crate::reconciler::task_columns;
use crate::schema::CoreTable;
use crate::schema::Creation;
use crate::schema::CriticalColumn;
use crate::seeder::seed_due;
use crate::seeder::seed_spec;

verus! {

/// The database after a series of starts, one for each catalog of the list,
/// whether they succeed or fail.
pub open spec fn after_starts(
    db: Database,
    catalogs: Seq<Seq<UnitSpec>>,
    script: ScriptEffect,
) -> Database
    decreases catalogs.len(),
{
    if catalogs.len() == 0 {
        db
    } else {
        after_starts(startup_spec(db, catalogs[0], script).0, catalogs.drop_first(), script)
    }
}

/// At-most-once application, one start: a start, successful or not, leaves no
/// name twice in a ledger that held none twice, and removes no name from it.
pub proof fn theorem_start_keeps_ledger_unique(
    db: Database,
    catalog: Seq<UnitSpec>,
    script: ScriptEffect,
)
    requires
        ledger_unique(db.ledger),
    ensures
        ledger_unique(startup_spec(db, catalog, script).0.ledger),
        forall|name: Seq<char>| #[trigger]
            db.ledger.contains(name) ==> startup_spec(db, catalog, script).0.ledger.contains(name),
{
    lemma_apply_all(db, pending_units(catalog, db.ledger), script);
}

/// At-most-once application: after any number of starts on a database file
/// that began empty, with whatever catalogs and whatever their outcome, the
/// ledger holds no name twice.
pub proof fn theorem_ledger_names_unique(catalogs: Seq<Seq<UnitSpec>>, script: ScriptEffect)
    ensures
        ledger_unique(after_starts(empty_database(), catalogs, script).ledger),
{
    lemma_starts_keep_ledger_unique(empty_database(), catalogs, script);
}

/// Any number of starts leave no name twice in a ledger that held none twice.
pub proof fn lemma_starts_keep_ledger_unique(
    db: Database,
    catalogs: Seq<Seq<UnitSpec>>,
    script: ScriptEffect,
)
    requires
        ledger_unique(db.ledger),
    ensures
        ledger_unique(after_starts(db, catalogs, script).ledger),
    decreases catalogs.len(),
{
    if catalogs.len() > 0 {
        theorem_start_keeps_ledger_unique(db, catalogs[0], script);
        lemma_starts_keep_ledger_unique(
            startup_spec(db, catalogs[0], script).0,
            catalogs.drop_first(),
            script,
        );
    }
}

/// Seed-once guarantee: seeding a task table that holds a row changes
/// nothing, and seeding twice in a row is seeding once.
pub proof fn theorem_seed_once(tables: Tables)
    ensures
        row_count(tables, CoreTable::Tasks) > 0 ==> seed_spec(tables) == tables,
        seed_spec(seed_spec(tables)) == seed_spec(tables),
        has_table(tables, CoreTable::Tasks) ==> row_count(seed_spec(tables), CoreTable::Tasks) == (
        if row_count(tables, CoreTable::Tasks) == 0 {
            crate::seeder::SEED_COUNT as nat
        } else {
            row_count(tables, CoreTable::Tasks)
        }),
{
}

/// Idempotence of convergence: a second start with the same catalog, right
/// after a start that succeeded, succeeds and leaves the database exactly as
/// the first left it: the same tables with the same columns and rows, the
/// same ledger.
pub proof fn theorem_second_start_changes_nothing(
    db: Database,
    catalog: Seq<UnitSpec>,
    script: ScriptEffect,
)
    requires
        startup_spec(db, catalog, script).1,
    ensures
        startup_spec(startup_spec(db, catalog, script).0, catalog, script) == (
            startup_spec(db, catalog, script).0,
            true,
        ),
{
    let todo = pending_units(catalog, db.ledger);
    let (migrated, complete) = apply_all(db, todo, script);
    let first = startup_spec(db, catalog, script).0;
    lemma_apply_all(db, todo, script);
    lemma_reconcile(migrated.tables);
    let repaired = reconcile_spec(migrated.tables)->0;
    let due = bootstrap_due(any_core_table(migrated.tables), migrated.ledger.len() == 0);
    let booted = bootstrap_spec(repaired, due);
    let seeded = seed_spec(booted);
    assert(first == Database { tables: seeded, ledger: migrated.ledger });
    lemma_bootstrap(repaired, due);
    lemma_seed_keeps_schema(booted);
    lemma_table_names_distinct();
    lemma_created_tables_are_complete();
    lemma_task_columns();

    // Nothing is pending any more.
    lemma_pending_or_recorded(catalog, db.ledger);
    assert forall|i: int| 0 <= i < catalog.len() implies first.ledger.contains(
        #[trigger] catalog[i].name,
    ) by {
        if !db.ledger.contains(catalog[i].name) {
            let k = choose|k: int|
                0 <= k < unit_names(todo).len() && unit_names(todo)[k] == catalog[i].name;
            assert(first.ledger[db.ledger.len() + k] == catalog[i].name);
        }
    }
    lemma_nothing_pending(catalog, first.ledger);
    let again = pending_units(catalog, first.ledger);
    lemma_apply_all(first, again, script);
    assert(apply_all(first, again, script) == (first, true));

    // The critical facts hold of what the first start left.
    let wanted = Creation::Baseline.tables();
    assert(converged(booted)) by {
        if due {
            assert(core_tables()[1] == CoreTable::Tasks);
            assert(!has_table(migrated.tables, CoreTable::Tasks));
            assert(!has_table(repaired, CoreTable::Tasks));
            assert(wanted[1] == CoreTable::Tasks);
            assert(wanted[4] == CoreTable::Attachments);
            assert(wanted[5] == CoreTable::TaskTemplates);
            assert(wanted[6] == CoreTable::UserProgress);
            assert(wanted[7] == CoreTable::Badges);
            assert(wanted[8] == CoreTable::XpHistory);
            assert(has_table(booted, wanted[4]));
            assert(has_table(booted, wanted[5]));
            assert(has_table(booted, wanted[6]));
            assert(has_table(booted, wanted[7]));
            assert(has_table(booted, wanted[8]));
            assert(booted[wanted[1].name_spec()] == (TableState {
                columns: wanted[1].columns(),
                rows: 0,
            }));
            assert(booted[CoreTable::Attachments.name_spec()]
                == repaired[CoreTable::Attachments.name_spec()]);
            assert forall|i: int| 0 <= i < task_columns().len() implies has_column(
                booted,
                #[trigger] task_columns()[i],
            ) by {
                assert(task_columns()[i].table_spec() == CoreTable::Tasks);
                assert(CoreTable::Tasks.columns().contains(task_columns()[i].name_spec()));
            }
        }
    }
    assert(converged(seeded));
    lemma_reconcile(seeded);
    assert(reconcile_spec(seeded) == Some(seeded));

    // The bootstrap does not run.
    assert(any_core_table(seeded) || first.ledger.len() != 0) by {
        if due {
            assert(wanted[1] == CoreTable::Tasks);
            assert(has_table(booted, wanted[1]));
            assert(core_tables()[1] == CoreTable::Tasks);
            assert(has_table(seeded, core_tables()[1]));
        } else if any_core_table(migrated.tables) {
            let i = choose|i: int|
                0 <= i < core_tables().len() && has_table(migrated.tables, #[trigger] core_tables()[i]);
            assert(repaired.dom().contains(core_tables()[i].name_spec()));
            assert(has_table(seeded, core_tables()[i]));
        }
    }
    assert(bootstrap_spec(
        seeded,
        bootstrap_due(any_core_table(seeded), first.ledger.len() == 0),
    ) == seeded);

    // The seeder does not run.
    assert(seed_spec(seeded) == seeded);
}

/// The bootstrap gate: where a start has applied a unit, or finds a name in
/// the ledger or a core table after its units, it creates no baseline
/// schema: the tables it leaves are those of the reconciler, but for the
/// example rows.
pub proof fn theorem_bootstrap_is_for_fresh_files_only(
    db: Database,
    catalog: Seq<UnitSpec>,
    script: ScriptEffect,
)
    requires
        migrate_spec(db, catalog, script).1,
        apply_all(db, pending_units(catalog, db.ledger), script).0.ledger.len() > 0
            || any_core_table(apply_all(db, pending_units(catalog, db.ledger), script).0.tables),
    ensures
        Some(migrate_spec(db, catalog, script).0.tables) == reconcile_spec(
            apply_all(db, pending_units(catalog, db.ledger), script).0.tables,
        ),
{
}

/// On the target schema a guarded unit issues no statement that changes
/// anything: no column is added again, no table is created again.
pub proof fn theorem_guarded_unit_short_circuits(tables: Tables, name: Seq<char>)
    requires
        target_schema(tables),
        guard_for(name) is Some,
    ensures
        missing_columns(
            guard_for(name)->0.columns,
            columns_of(tables, guard_for(name)->0.table),
        ).len() == 0,
        run_guard(tables, guard_for(name)->0) == Some(tables),
{
    let guard = guard_for(name)->0;
    let present = columns_of(tables, guard.table);
    let missing = missing_columns(guard.columns, present);
    lemma_missing_columns(guard.columns, present);
    lemma_task_columns();
    if missing.len() > 0 {
        assert(missing.contains(missing[0]));
        let j = choose|j: int| 0 <= j < guard.columns.len() && guard.columns[j] == missing[0];
        let column = guard.columns[j];
        if column == CriticalColumn::AttachmentSize {
            assert(has_column(tables, column));
        } else {
            let k = choose|k: int| 0 <= k < task_columns().len() && task_columns()[k] == column;
            assert(has_column(tables, task_columns()[k]));
        }
        assert(false);
    }
    assert(add_columns(tables, missing) == Some(tables));
    if guard.creation is Some {
        let wanted = guard.creation->0.tables();
        assert(wanted[0] == CoreTable::NotificationSchedule);
        assert(wanted.drop_first().len() == 0);
        assert(create_table(tables, wanted[0]) == tables);
        assert(create_tables(tables, wanted) == create_tables(tables, wanted.drop_first()));
    }
}

/// Convergence regardless of ledger state: the schema is where the catalog
/// leads, but the ledger is empty, so every unit is pending again. The start
/// does not fail and adds nothing a second time: the guarded units and the
/// reconciler find nothing missing and issue no statement that changes the
/// schema. The tables are left as they were but for the example rows of an
/// empty task table, and every unit is recorded.
///
/// Of a unit without a guard the engine knows nothing but its text. The
/// statement holds for the scripts that leave this schema as it is.
pub proof fn theorem_lost_ledger_is_harmless(
    db: Database,
    catalog: Seq<UnitSpec>,
    script: ScriptEffect,
)
    requires
        db.ledger.len() == 0,
        target_schema(db.tables),
        distinct_names(catalog),
        forall|i: int|
            0 <= i < catalog.len() && guard_for(#[trigger] catalog[i].name) is None ==> script(
                catalog[i].body,
                db.tables,
            ) == Some(db.tables),
    ensures
        reconciled(observe(db.tables)),
        startup_spec(db, catalog, script) == (
            Database { tables: seed_spec(db.tables), ledger: unit_names(catalog) },
            true,
        ),
{
    assert(db.ledger =~= Seq::<Seq<char>>::empty());
    lemma_all_pending(catalog);
    assert forall|i: int| 0 <= i < catalog.len() implies !db.ledger.contains(
        #[trigger] catalog[i].name,
    ) && run_unit(db.tables, catalog[i], script) == Some(db.tables) by {
        if guard_for(catalog[i].name) is Some {
            theorem_guarded_unit_short_circuits(db.tables, catalog[i].name);
        }
    }
    lemma_apply_all_unchanged(db, catalog, script);
    assert(db.ledger + unit_names(catalog) =~= unit_names(catalog));
    lemma_converged_means_reconciled(db.tables);
    lemma_reconcile(db.tables);
    assert(core_tables()[1] == CoreTable::Tasks);
    assert(has_table(db.tables, core_tables()[1]));
    assert(any_core_table(db.tables));
}

/// Bootstrap-only path: a database file that has just been created, with no
/// migration unit to be found, gets the whole baseline schema. Each of the
/// nine baseline tables exists with the columns this library gives it, no
/// other table exists, the ledger is empty, and no table holds a row but the
/// progress table, which holds the row of the default user. The seeder then
/// runs, and the start ends with the example rows in the task table.
pub proof fn theorem_fresh_database_is_bootstrapped(script: ScriptEffect)
    ensures
        migrate_spec(empty_database(), Seq::<UnitSpec>::empty(), script).1,
        ({
            let fresh = migrate_spec(empty_database(), Seq::<UnitSpec>::empty(), script).0;
            &&& fresh.ledger.len() == 0
            &&& forall|i: int|
                0 <= i < Creation::Baseline.tables().len() ==> has_table(
                    fresh.tables,
                    #[trigger] Creation::Baseline.tables()[i],
                ) && fresh.tables[Creation::Baseline.tables()[i].name_spec()] == (TableState {
                    columns: Creation::Baseline.tables()[i].columns(),
                    rows: if Creation::Baseline.tables()[i] == CoreTable::UserProgress {
                        1nat
                    } else {
                        0nat
                    },
                })
            &&& forall|name: Seq<char>| #[trigger]
                fresh.tables.dom().contains(name) ==> exists|i: int|
                    0 <= i < Creation::Baseline.tables().len()
                        && Creation::Baseline.tables()[i].name_spec() == name
            &&& converged(fresh.tables)
            &&& seed_due(
                has_table(fresh.tables, CoreTable::Tasks),
                row_count(fresh.tables, CoreTable::Tasks) as int,
            )
        }),
        startup_spec(empty_database(), Seq::<UnitSpec>::empty(), script).1,
        row_count(
            startup_spec(empty_database(), Seq::<UnitSpec>::empty(), script).0.tables,
            CoreTable::Tasks,
        ) == crate::seeder::SEED_COUNT,
{
    let db = empty_database();
    let catalog = Seq::<UnitSpec>::empty();
    lemma_all_pending(catalog);
    assert(db.ledger =~= Seq::<Seq<char>>::empty());
    lemma_apply_all(db, catalog, script);
    lemma_reconcile(db.tables);
    lemma_table_names_distinct();
    lemma_created_tables_are_complete();
    lemma_task_columns();
    let repairs = attachment_repairs(observe(db.tables).attachment_columns);
    assert(repairs =~= seq![Repair::Create(Creation::Attachments)]);
    lemma_apply_single(db.tables, Repair::Create(Creation::Attachments));
    let repaired = create(db.tables, Creation::Attachments);
    assert(reconcile_spec(db.tables) == Some(repaired));
    lemma_create(db.tables, Creation::Attachments);
    lemma_create_tables(db.tables, Creation::Attachments.tables());
    assert(Creation::Attachments.tables()[0] == CoreTable::Attachments);
    assert(repaired[CoreTable::Attachments.name_spec()] == (TableState {
        columns: CoreTable::Attachments.columns(),
        rows: 0,
    }));
    assert(!any_core_table(db.tables));
    lemma_bootstrap(repaired, true);
    let fresh = bootstrap_spec(repaired, true);
    assert(migrate_spec(db, catalog, script).0.tables == fresh);
    let wanted = Creation::Baseline.tables();
    assert forall|name: Seq<char>| #[trigger] repaired.dom().contains(name) implies name
        == CoreTable::Attachments.name_spec() by {
        if !db.tables.dom().contains(name) {
            let k = choose|k: int|
                0 <= k < Creation::Attachments.tables().len()
                    && Creation::Attachments.tables()[k].name_spec() == name;
        }
    }
    assert forall|i: int| 0 <= i < wanted.len() implies has_table(fresh, #[trigger] wanted[i])
        && fresh[wanted[i].name_spec()] == (TableState {
        columns: wanted[i].columns(),
        rows: if wanted[i] == CoreTable::UserProgress {
            1nat
        } else {
            0nat
        },
    }) by {
        if wanted[i] == CoreTable::Attachments {
            assert(fresh[wanted[i].name_spec()] == repaired[wanted[i].name_spec()]);
        } else if wanted[i] == CoreTable::UserProgress {
            assert(!has_table(repaired, CoreTable::UserProgress));
        } else {
            assert(!has_table(repaired, wanted[i]));
        }
    }
    assert forall|name: Seq<char>| #[trigger] fresh.dom().contains(name) implies exists|i: int|
        0 <= i < wanted.len() && wanted[i].name_spec() == name by {
        if repaired.dom().contains(name) {
            assert(wanted[4].name_spec() == name);
        }
    }
    assert(wanted[1] == CoreTable::Tasks);
    assert(wanted[4] == CoreTable::Attachments);
    assert(wanted[5] == CoreTable::TaskTemplates);
    assert(wanted[6] == CoreTable::UserProgress);
    assert(wanted[7] == CoreTable::Badges);
    assert(wanted[8] == CoreTable::XpHistory);
    assert(has_table(fresh, wanted[1]) && has_table(fresh, wanted[4]) && has_table(
        fresh,
        wanted[5],
    ) && has_table(fresh, wanted[6]) && has_table(fresh, wanted[7]) && has_table(fresh, wanted[8]));
    assert(converged(fresh)) by {
        assert forall|i: int| 0 <= i < task_columns().len() implies has_column(
            fresh,
            #[trigger] task_columns()[i],
        ) by {
            assert(task_columns()[i].table_spec() == CoreTable::Tasks);
            assert(CoreTable::Tasks.columns().contains(task_columns()[i].name_spec()));
        }
    }
}

} // verus!
