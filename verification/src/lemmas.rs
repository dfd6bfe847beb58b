//! What the single steps of the startup sequence do to the picture of the
//! database in [`crate::model`]. The theorems on the sequence as a whole rest
//! on these.

use vstd::prelude::*;
use crate::convergence::distinct_columns;
use crate::convergence::distinct_names;
use crate::model::kept;
use crate::reconciler::converged;
use crate::bootstrap::bootstrap_spec;
use crate::convergence::UnitSpec;
use crate::convergence::add_columns;
use crate::convergence::apply_all;
use crate::convergence::apply_unit_spec;
use crate::convergence::missing_columns;
use crate::convergence::pending_units;
use crate::convergence::run_unit;
use crate::convergence::unit_names;
use crate::model::Database;
use crate::model::ScriptEffect;
use crate::model::TableState;
use crate::model::Tables;
use crate::model::add_column;
use crate::model::columns_of;
use crate::model::create;
use crate::model::create_table;
use crate::model::create_tables;
use crate::model::has_column;
use crate::model::has_table;
use crate::model::has_default_user;
use crate::model::with_default_user;
use crate::model::ledger_unique;
use crate::model::row_count;
use crate::reconciler::Repair;
use crate::reconciler::additions;
use crate::reconciler::apply_repair;
use crate::reconciler::apply_repairs;
use crate::reconciler::attachment_repairs;
use crate::reconciler::creation_repairs;
use crate::reconciler::observe;
use crate::reconciler::companion_repairs;
use crate::reconciler::default_user_repairs;
use crate::reconciler::reconcile_spec;
use crate::reconciler::reconciled;
use crate::reconciler::repairs_for;
use crate::reconciler::task_columns;
use crate::reconciler::task_repairs;
use crate::schema::CoreTable;
use crate::schema::Creation;
use crate::schema::CriticalColumn;
use crate::seeder::seed_spec;

verus! {

/// No two tables share a name.
pub proof fn lemma_table_names_distinct()
    ensures
        forall|a: CoreTable, b: CoreTable| a != b ==> #[trigger] a.name_spec() != #[trigger] b.name_spec(),
{
    reveal_strlit("projects");
    reveal_strlit("tasks");
    reveal_strlit("settings");
    reveal_strlit("subtasks");
    reveal_strlit("attachments");
    reveal_strlit("task_templates");
    reveal_strlit("user_progress");
    reveal_strlit("badges");
    reveal_strlit("xp_history");
    reveal_strlit("notification_schedule");
    assert("projects"@.len() == 8 && "projects"@[0] == 'p');
    assert("tasks"@.len() == 5);
    assert("settings"@.len() == 8 && "settings"@[0] == 's' && "settings"@[1] == 'e');
    assert("subtasks"@.len() == 8 && "subtasks"@[0] == 's' && "subtasks"@[1] == 'u');
    assert("attachments"@.len() == 11);
    assert("task_templates"@.len() == 14);
    assert("user_progress"@.len() == 13);
    assert("badges"@.len() == 6);
    assert("xp_history"@.len() == 10);
    assert("notification_schedule"@.len() == 21);
    assert forall|a: CoreTable, b: CoreTable| a != b implies #[trigger] a.name_spec()
        != #[trigger] b.name_spec() by {
        if a.name_spec().len() == b.name_spec().len() {
            assert(a.name_spec().len() == 8);
            assert(a.name_spec()[0] != b.name_spec()[0] || a.name_spec()[1] != b.name_spec()[1]);
        }
    }
}

/// No two of the guarded columns share a name.
pub proof fn lemma_column_names_distinct()
    ensures
        forall|a: CriticalColumn, b: CriticalColumn|
            a != b ==> #[trigger] a.name_spec() != #[trigger] b.name_spec(),
{
    reveal_strlit("size");
    reveal_strlit("recurrence_type");
    reveal_strlit("recurrence_interval");
    reveal_strlit("recurrence_parent_id");
    reveal_strlit("reminder_minutes_before");
    reveal_strlit("notification_repeat");
    assert("size"@.len() == 4);
    assert("recurrence_type"@.len() == 15);
    assert("recurrence_interval"@.len() == 19 && "recurrence_interval"@[0] == 'r');
    assert("recurrence_parent_id"@.len() == 20);
    assert("reminder_minutes_before"@.len() == 23);
    assert("notification_repeat"@.len() == 19 && "notification_repeat"@[0] == 'n');
    assert forall|a: CriticalColumn, b: CriticalColumn| a != b implies #[trigger] a.name_spec()
        != #[trigger] b.name_spec() by {
        if a.name_spec().len() == b.name_spec().len() {
            assert(a.name_spec().len() == 19);
            assert(a.name_spec()[0] != b.name_spec()[0]);
        }
    }
}

/// Every guarded column is among the columns with which its table is created.
pub proof fn lemma_created_tables_are_complete()
    ensures
        forall|c: CriticalColumn| #[trigger] c.table_spec().columns().contains(c.name_spec()),
{
}

/// What `create_tables` does: tables that exist stay as they are, the wanted
/// ones exist afterwards, and each that was missing is empty and has the
/// library's columns.
pub proof fn lemma_create_tables(tables: Tables, wanted: Seq<CoreTable>)
    ensures
        forall|name: Seq<char>| #[trigger]
            tables.dom().contains(name) ==> create_tables(tables, wanted).dom().contains(name)
                && create_tables(tables, wanted)[name] == tables[name],
        forall|i: int|
            0 <= i < wanted.len() ==> create_tables(tables, wanted).dom().contains(
                #[trigger] wanted[i].name_spec(),
            ),
        forall|i: int|
            0 <= i < wanted.len() && !tables.dom().contains(#[trigger] wanted[i].name_spec())
                ==> create_tables(tables, wanted)[wanted[i].name_spec()] == (TableState {
                columns: wanted[i].columns(),
                rows: 0,
            }),
        forall|name: Seq<char>| #[trigger]
            create_tables(tables, wanted).dom().contains(name) ==> tables.dom().contains(name) || (
            exists|i: int| 0 <= i < wanted.len() && wanted[i].name_spec() == name),
    decreases wanted.len(),
{
    if wanted.len() > 0 {
        let first = create_table(tables, wanted[0]);
        let rest = wanted.drop_first();
        lemma_create_tables(first, rest);
        lemma_table_names_distinct();
        let result = create_tables(tables, wanted);
        assert(result == create_tables(first, rest));
        assert(first.dom().contains(wanted[0].name_spec()));
        assert forall|name: Seq<char>| #[trigger] tables.dom().contains(name) implies result.dom().contains(
            name,
        ) && result[name] == tables[name] by {
            assert(first.dom().contains(name));
            assert(first[name] == tables[name]);
        }
        assert forall|i: int| 0 <= i < wanted.len() implies result.dom().contains(
            #[trigger] wanted[i].name_spec(),
        ) by {
            if i > 0 {
                assert(rest[i - 1] == wanted[i]);
                assert(result.dom().contains(rest[i - 1].name_spec()));
            }
        }
        assert forall|i: int|
            0 <= i < wanted.len() && !tables.dom().contains(
                #[trigger] wanted[i].name_spec(),
            ) implies result[wanted[i].name_spec()] == (TableState {
            columns: wanted[i].columns(),
            rows: 0,
        }) by {
            if wanted[i] == wanted[0] {
                assert(first[wanted[0].name_spec()] == (TableState {
                    columns: wanted[0].columns(),
                    rows: 0,
                }));
            } else {
                assert(rest[i - 1] == wanted[i]);
                assert(!first.dom().contains(rest[i - 1].name_spec()));
            }
        }
        assert forall|name: Seq<char>| #[trigger] result.dom().contains(name) implies tables.dom().contains(
            name,
        ) || (exists|i: int| 0 <= i < wanted.len() && wanted[i].name_spec() == name) by {
            if !tables.dom().contains(name) {
                if first.dom().contains(name) {
                    assert(wanted[0].name_spec() == name);
                } else {
                    let j = choose|j: int| 0 <= j < rest.len() && rest[j].name_spec() == name;
                    assert(wanted[j + 1].name_spec() == name);
                }
            }
        }
    }
}

/// The missing columns are exactly the wanted ones that are not present, and
/// none of them occurs twice where none of the wanted ones does.
pub proof fn lemma_missing_columns(wanted: Seq<CriticalColumn>, present: Set<Seq<char>>)
    ensures
        forall|c: CriticalColumn| #[trigger]
            missing_columns(wanted, present).contains(c) <==> wanted.contains(c)
                && !present.contains(c.name_spec()),
        distinct_columns(wanted) ==> distinct_columns(missing_columns(wanted, present)),
    decreases wanted.len(),
{
    let missing = missing_columns(wanted, present);
    if wanted.len() == 0 {
        reveal(Seq::filter);
        assert(missing.len() == 0);
    } else {
        let init = wanted.drop_last();
        let last = wanted.last();
        assert(wanted =~= init.push(last));
        crate::convergence::lemma_missing_push(init, present, last);
        lemma_missing_columns(init, present);
        let before = missing_columns(init, present);
        assert forall|c: CriticalColumn| #[trigger] missing.contains(c) <==> wanted.contains(c)
            && !present.contains(c.name_spec()) by {
            if missing.contains(c) {
                let i = choose|i: int| 0 <= i < missing.len() && missing[i] == c;
                if i < before.len() {
                    assert(before.contains(c));
                    let j = choose|j: int| 0 <= j < init.len() && init[j] == c;
                    assert(wanted[j] == c);
                } else {
                    assert(c == last);
                    assert(wanted[wanted.len() - 1] == c);
                }
            }
            if wanted.contains(c) && !present.contains(c.name_spec()) {
                let j = choose|j: int| 0 <= j < wanted.len() && wanted[j] == c;
                if j < init.len() {
                    assert(init[j] == c);
                    assert(before.contains(c));
                    let i = choose|i: int| 0 <= i < before.len() && before[i] == c;
                    assert(missing[i] == c);
                } else {
                    assert(missing[missing.len() - 1] == c);
                }
            }
        }
        if distinct_columns(wanted) {
            assert(distinct_columns(init)) by {
                assert forall|i: int, j: int| 0 <= i < j < init.len() implies init[i] != init[j] by {
                    assert(wanted[i] != wanted[j]);
                }
            }
            assert forall|i: int, j: int| 0 <= i < j < missing.len() implies missing[i]
                != missing[j] by {
                if j >= before.len() {
                    assert(missing[j] == last);
                    assert(before[i] == missing[i]);
                    assert(before.contains(missing[i]));
                    let k = choose|k: int| 0 <= k < init.len() && init[k] == missing[i];
                    assert(wanted[k] != wanted[wanted.len() - 1]);
                } else {
                    assert(before[i] != before[j]);
                }
            }
        }
    }
}

/// What adding columns does to a table that exists and has none of them:
/// every statement is accepted, the table gains exactly these columns, and
/// nothing else changes.
pub proof fn lemma_add_columns(tables: Tables, table: CoreTable, columns: Seq<CriticalColumn>)
    requires
        has_table(tables, table),
        distinct_columns(columns),
        forall|i: int| 0 <= i < columns.len() ==> (#[trigger] columns[i]).table_spec() == table,
        forall|i: int| 0 <= i < columns.len() ==> !has_column(tables, #[trigger] columns[i]),
    ensures
        add_columns(tables, columns) is Some,
        add_columns(tables, columns)->0.dom() == tables.dom(),
        forall|name: Seq<char>|
            name != table.name_spec() ==> #[trigger] add_columns(tables, columns)->0[name]
                == tables[name],
        add_columns(tables, columns)->0[table.name_spec()].rows == tables[table.name_spec()].rows,
        forall|c: Seq<char>| #[trigger]
            add_columns(tables, columns)->0[table.name_spec()].columns.contains(c)
                <==> tables[table.name_spec()].columns.contains(c) || (exists|i: int|
                0 <= i < columns.len() && columns[i].name_spec() == c),
    decreases columns.len(),
{
    if columns.len() > 0 {
        let first = columns[0];
        let rest = columns.drop_first();
        assert(first.table_spec() == table);
        assert(!has_column(tables, first));
        let next = add_column(tables, first)->0;
        assert(next.dom() =~= tables.dom());
        lemma_column_names_distinct();
        assert forall|i: int| 0 <= i < rest.len() implies !has_column(next, #[trigger] rest[i]) by {
            assert(rest[i] == columns[i + 1]);
            assert(columns[0] != columns[i + 1]);
            assert(!has_column(tables, columns[i + 1]));
            assert(columns[i + 1].table_spec() == table);
        }
        assert forall|i: int| 0 <= i < rest.len() implies (#[trigger] rest[i]).table_spec()
            == table by {
            assert(rest[i] == columns[i + 1]);
        }
        assert(distinct_columns(rest)) by {
            assert forall|i: int, j: int| 0 <= i < j < rest.len() implies rest[i] != rest[j] by {
                assert(columns[i + 1] != columns[j + 1]);
            }
        }
        lemma_add_columns(next, table, rest);
        let after = add_columns(tables, columns)->0;
        assert(after == add_columns(next, rest)->0);
        assert forall|c: Seq<char>| #[trigger]
            after[table.name_spec()].columns.contains(c) <==> tables[table.name_spec()].columns.contains(
                c,
            ) || (exists|i: int| 0 <= i < columns.len() && columns[i].name_spec() == c) by {
            if after[table.name_spec()].columns.contains(c) {
                if !next[table.name_spec()].columns.contains(c) {
                    let i = choose|i: int| 0 <= i < rest.len() && rest[i].name_spec() == c;
                    assert(columns[i + 1].name_spec() == c);
                } else if !tables[table.name_spec()].columns.contains(c) {
                    assert(columns[0].name_spec() == c);
                }
            }
            if exists|i: int| 0 <= i < columns.len() && columns[i].name_spec() == c {
                let i = choose|i: int| 0 <= i < columns.len() && columns[i].name_spec() == c;
                if i > 0 {
                    assert(rest[i - 1].name_spec() == c);
                }
            }
        }
    }
}

/// Repairs made one list after another are the repairs of the joined list.
pub proof fn lemma_apply_repairs_concat(tables: Tables, first: Seq<Repair>, second: Seq<Repair>)
    ensures
        apply_repairs(tables, first + second) == match apply_repairs(tables, first) {
            None => None,
            Some(next) => apply_repairs(next, second),
        },
    decreases first.len(),
{
    if first.len() == 0 {
        assert(first + second =~= second);
    } else {
        assert((first + second)[0] == first[0]);
        assert((first + second).drop_first() =~= first.drop_first() + second);
        match apply_repair(tables, first[0]) {
            None => {},
            Some(next) => {
                lemma_apply_repairs_concat(next, first.drop_first(), second);
            },
        }
    }
}

/// Repairs that add columns do what adding the columns does.
pub proof fn lemma_apply_additions(tables: Tables, columns: Seq<CriticalColumn>)
    ensures
        apply_repairs(tables, additions(columns)) == add_columns(tables, columns),
    decreases columns.len(),
{
    if columns.len() > 0 {
        assert(additions(columns)[0] == Repair::AddColumn(columns[0]));
        assert(additions(columns).drop_first() =~= additions(columns.drop_first()));
        match add_column(tables, columns[0]) {
            None => {},
            Some(next) => {
                lemma_apply_additions(next, columns.drop_first());
            },
        }
    }
}

/// Adding the columns that a table lacks always succeeds where the table
/// exists: afterwards it has all the wanted columns, and nothing else has
/// changed. Where it lacked none, nothing has changed at all.
pub proof fn lemma_add_missing(tables: Tables, table: CoreTable, wanted: Seq<CriticalColumn>)
    requires
        has_table(tables, table),
        distinct_columns(wanted),
        forall|i: int| 0 <= i < wanted.len() ==> (#[trigger] wanted[i]).table_spec() == table,
    ensures
        add_columns(tables, missing_columns(wanted, columns_of(tables, table))) is Some,
        ({
            let after = add_columns(tables, missing_columns(wanted, columns_of(tables, table)))->0;
            &&& after.dom() == tables.dom()
            &&& forall|name: Seq<char>|
                name != table.name_spec() ==> #[trigger] after[name] == tables[name]
            &&& after[table.name_spec()].rows == tables[table.name_spec()].rows
            &&& forall|i: int| 0 <= i < wanted.len() ==> has_column(after, #[trigger] wanted[i])
            &&& (forall|i: int| 0 <= i < wanted.len() ==> has_column(tables, #[trigger] wanted[i]))
                ==> after == tables
        }),
{
    let present = columns_of(tables, table);
    let missing = missing_columns(wanted, present);
    lemma_missing_columns(wanted, present);
    assert forall|i: int| 0 <= i < missing.len() implies (#[trigger] missing[i]).table_spec()
        == table && !has_column(tables, missing[i]) by {
        assert(missing.contains(missing[i]));
        let j = choose|j: int| 0 <= j < wanted.len() && wanted[j] == missing[i];
        assert(wanted[j].table_spec() == table);
    }
    lemma_add_columns(tables, table, missing);
    let after = add_columns(tables, missing)->0;
    assert forall|i: int| 0 <= i < wanted.len() implies has_column(after, #[trigger] wanted[i]) by {
        let c = wanted[i];
        assert(c.table_spec() == table);
        assert(wanted.contains(c));
        if !present.contains(c.name_spec()) {
            assert(missing.contains(c));
            let k = choose|k: int| 0 <= k < missing.len() && missing[k] == c;
            assert(missing[k].name_spec() == c.name_spec());
        }
        assert(after[table.name_spec()].columns.contains(c.name_spec()));
    }
    if forall|i: int| 0 <= i < wanted.len() ==> has_column(tables, #[trigger] wanted[i]) {
        if missing.len() > 0 {
            assert(missing.contains(missing[0]));
            let j = choose|j: int| 0 <= j < wanted.len() && wanted[j] == missing[0];
            assert(has_column(tables, wanted[j]));
        }
    }
}

/// The guarded columns of the task table are five different columns of it.
pub proof fn lemma_task_columns()
    ensures
        task_columns().len() == 5,
        distinct_columns(task_columns()),
        forall|i: int|
            0 <= i < task_columns().len() ==> (#[trigger] task_columns()[i]).table_spec()
                == CoreTable::Tasks,
{
}

/// The first step of the reconciler: afterwards the attachment table exists
/// and has its size column, and no other table has changed.
pub proof fn lemma_repair_attachments(tables: Tables)
    ensures
        apply_repairs(tables, attachment_repairs(observe(tables).attachment_columns)) is Some,
        ({
            let after = apply_repairs(
                tables,
                attachment_repairs(observe(tables).attachment_columns),
            )->0;
            &&& has_table(after, CoreTable::Attachments)
            &&& has_column(after, CriticalColumn::AttachmentSize)
            &&& forall|name: Seq<char>|
                name != CoreTable::Attachments.name_spec() ==> (#[trigger] after.dom().contains(
                    name,
                ) <==> tables.dom().contains(name)) && after[name] == tables[name]
            &&& has_table(tables, CoreTable::Attachments) ==> after[CoreTable::Attachments.name_spec()].rows
                == tables[CoreTable::Attachments.name_spec()].rows
            &&& has_table(tables, CoreTable::Attachments) && has_column(
                tables,
                CriticalColumn::AttachmentSize,
            ) ==> after == tables
        }),
{
    let repairs = attachment_repairs(observe(tables).attachment_columns);
    let name = CoreTable::Attachments.name_spec();
    if !has_table(tables, CoreTable::Attachments) {
        assert(repairs.len() == 1 && repairs[0] == Repair::Create(Creation::Attachments));
        let created = create(tables, Creation::Attachments);
        assert(apply_repair(tables, repairs[0]) == Some(created));
        assert(repairs.drop_first().len() == 0);
        assert(apply_repairs(tables, repairs) == apply_repairs(created, repairs.drop_first()));
        assert(apply_repairs(tables, repairs) == Some(created));
        let wanted = Creation::Attachments.tables();
        lemma_create_tables(tables, wanted);
        assert(wanted[0] == CoreTable::Attachments);
        assert(created.dom().contains(wanted[0].name_spec()));
        assert(created[wanted[0].name_spec()].columns == CoreTable::Attachments.columns());
        assert forall|other: Seq<char>| other != name implies (#[trigger] created.dom().contains(
            other,
        ) <==> tables.dom().contains(other)) && created[other] == tables[other] by {
            if created.dom().contains(other) && !tables.dom().contains(other) {
                let i = choose|i: int| 0 <= i < wanted.len() && wanted[i].name_spec() == other;
                assert(wanted[i] == CoreTable::Attachments);
            }
            if tables.dom().contains(other) {
                assert(created.dom().contains(other) && created[other] == tables[other]);
            } else {
                assert(!created.dom().contains(other));
                assert(created == create_table(tables, CoreTable::Attachments)) by {
                    assert(wanted.drop_first().len() == 0);
                    assert(create_tables(tables, wanted) == create_tables(
                        create_table(tables, wanted[0]),
                        wanted.drop_first(),
                    ));
                }
            }
        }
    } else if !has_column(tables, CriticalColumn::AttachmentSize) {
        assert(repairs.len() == 1 && repairs[0] == Repair::AddColumn(
            CriticalColumn::AttachmentSize,
        ));
        let extended = add_column(tables, CriticalColumn::AttachmentSize)->0;
        assert(repairs.drop_first().len() == 0);
        assert(apply_repairs(tables, repairs) == apply_repairs(extended, repairs.drop_first()));
        assert(apply_repairs(tables, repairs) == Some(extended));
        assert(extended.dom() =~= tables.dom());
    } else {
        assert(repairs.len() == 0);
    }
}

/// A list of one repair does what the repair does.
pub proof fn lemma_apply_single(tables: Tables, repair: Repair)
    ensures
        apply_repairs(tables, seq![repair]) == apply_repair(tables, repair),
        apply_repairs(tables, Seq::<Repair>::empty()) == Some(tables),
{
    let repairs = seq![repair];
    assert(repairs[0] == repair);
    assert(repairs.drop_first().len() == 0);
    match apply_repair(tables, repair) {
        None => {},
        Some(next) => {
            assert(apply_repairs(next, repairs.drop_first()) == Some(next));
        },
    }
}

/// Creating the tables of a batch where they are missing keeps every table
/// that exists, and afterwards all tables of the batch exist.
pub proof fn lemma_create(tables: Tables, batch: Creation)
    ensures
        kept(tables, create(tables, batch)),
        forall|i: int|
            0 <= i < batch.tables().len() ==> has_table(
                create(tables, batch),
                #[trigger] batch.tables()[i],
            ),
        forall|i: int|
            0 <= i < batch.tables().len() && !has_table(tables, #[trigger] batch.tables()[i])
                ==> create(tables, batch)[batch.tables()[i].name_spec()] == (TableState {
                columns: batch.tables()[i].columns(),
                rows: 0,
            }),
        forall|table: CoreTable| #[trigger]
            has_table(create(tables, batch), table) ==> has_table(tables, table)
                || batch.tables().contains(table),
{
    lemma_create_tables(tables, batch.tables());
    lemma_table_names_distinct();
    assert forall|table: CoreTable| #[trigger]
        has_table(create(tables, batch), table) implies has_table(tables, table)
        || batch.tables().contains(table) by {
        if !has_table(tables, table) {
            let i = choose|i: int|
                0 <= i < batch.tables().len() && batch.tables()[i].name_spec() == table.name_spec();
            assert(batch.tables()[i] == table);
        }
    }
}

/// Creating one table where it is missing is what the repair of a fact
/// about one table does.
pub proof fn lemma_creation_step(tables: Tables, batch: Creation, table: CoreTable)
    requires
        batch.tables() =~= seq![table],
    ensures
        create(tables, batch) == create_table(tables, table),
        apply_repairs(tables, creation_repairs(batch, has_table(tables, table))) == Some(
            create_table(tables, table),
        ),
{
    let wanted = batch.tables();
    assert(wanted[0] == table);
    assert(wanted.drop_first().len() == 0);
    assert(create_tables(tables, wanted) == create_tables(
        create_table(tables, wanted[0]),
        wanted.drop_first(),
    ));
    assert(create_tables(create_table(tables, table), wanted.drop_first()) == create_table(
        tables,
        table,
    ));
    lemma_apply_single(tables, Repair::Create(batch));
    if has_table(tables, table) {
        assert(creation_repairs(batch, true) =~= Seq::<Repair>::empty());
    } else {
        assert(creation_repairs(batch, false) =~= seq![Repair::Create(batch)]);
    }
}

/// The tables after the repairs of the tables beside the task table: the
/// four tables exist and the default user's row is there.
pub open spec fn companions(tables: Tables) -> Tables {
    with_default_user(
        create_table(
            create_table(
                create_table(
                    create_table(tables, CoreTable::TaskTemplates),
                    CoreTable::UserProgress,
                ),
                CoreTable::Badges,
            ),
            CoreTable::XpHistory,
        ),
    )
}

/// What [`companions`] does: the four tables exist afterwards and the
/// default user's row is there; every table that existed still exists, and
/// every table but the progress table is as it was; where nothing was
/// missing, nothing has changed.
pub proof fn lemma_companions_facts(tables: Tables)
    ensures
        ({
            let after = companions(tables);
            &&& has_table(after, CoreTable::TaskTemplates)
            &&& has_table(after, CoreTable::UserProgress)
            &&& has_table(after, CoreTable::Badges)
            &&& has_table(after, CoreTable::XpHistory)
            &&& has_default_user(after)
            &&& forall|name: Seq<char>| #[trigger]
                tables.dom().contains(name) ==> after.dom().contains(name)
            &&& forall|name: Seq<char>|
                name != CoreTable::UserProgress.name_spec() && #[trigger] tables.dom().contains(
                    name,
                ) ==> after[name] == tables[name]
            &&& forall|name: Seq<char>| #[trigger]
                after.dom().contains(name) ==> tables.dom().contains(name) || name
                    == CoreTable::TaskTemplates.name_spec() || name
                    == CoreTable::UserProgress.name_spec() || name == CoreTable::Badges.name_spec()
                    || name == CoreTable::XpHistory.name_spec()
            &&& has_table(tables, CoreTable::TaskTemplates) && has_table(
                tables,
                CoreTable::UserProgress,
            ) && has_table(tables, CoreTable::Badges) && has_table(tables, CoreTable::XpHistory)
                && has_default_user(tables) ==> after == tables
        }),
{
    lemma_table_names_distinct();
}

/// The repairs of the tables beside the task table are all accepted, and do
/// what [`companions`] says.
pub proof fn lemma_companions(tables: Tables)
    ensures
        apply_repairs(tables, companion_repairs(observe(tables))) == Some(companions(tables)),
{
    lemma_table_names_distinct();
    let facts = observe(tables);
    let a = creation_repairs(Creation::TaskTemplates, facts.templates_exist);
    let b = creation_repairs(Creation::UserProgress, facts.progress_exists);
    let c = creation_repairs(Creation::Badges, facts.badges_exist);
    let d = creation_repairs(Creation::XpHistory, facts.history_exists);
    let e = default_user_repairs(facts.default_user_exists);
    let t1 = create_table(tables, CoreTable::TaskTemplates);
    let t2 = create_table(t1, CoreTable::UserProgress);
    let t3 = create_table(t2, CoreTable::Badges);
    let t4 = create_table(t3, CoreTable::XpHistory);
    assert(companion_repairs(facts) == a + b + c + d + e);
    lemma_apply_repairs_concat(tables, a + b + c + d, e);
    lemma_apply_repairs_concat(tables, a + b + c, d);
    lemma_apply_repairs_concat(tables, a + b, c);
    lemma_apply_repairs_concat(tables, a, b);
    lemma_creation_step(tables, Creation::TaskTemplates, CoreTable::TaskTemplates);
    assert(has_table(t1, CoreTable::UserProgress) == has_table(tables, CoreTable::UserProgress));
    lemma_creation_step(t1, Creation::UserProgress, CoreTable::UserProgress);
    assert(has_table(t2, CoreTable::Badges) == has_table(tables, CoreTable::Badges));
    lemma_creation_step(t2, Creation::Badges, CoreTable::Badges);
    assert(has_table(t3, CoreTable::XpHistory) == has_table(tables, CoreTable::XpHistory));
    lemma_creation_step(t3, Creation::XpHistory, CoreTable::XpHistory);
    assert(apply_repairs(tables, a + b + c + d) == Some(t4));
    assert(has_table(t4, CoreTable::UserProgress));
    assert(has_default_user(t4) == has_default_user(tables));
    lemma_apply_single(t4, Repair::DefaultUser);
    if facts.default_user_exists {
        assert(e =~= Seq::<Repair>::empty());
    } else {
        assert(e =~= seq![Repair::DefaultUser]);
    }
}

/// The steps of the reconciler around the task table. Where the table is
/// missing nothing happens. Where it exists, every statement is accepted;
/// afterwards the table has its guarded columns, the tables beside it exist
/// and the default user's row is there; every other table that existed is as
/// it was, but that the progress table may have gained that row; and where
/// nothing was missing, nothing has changed.
pub proof fn lemma_repair_tasks(tables: Tables)
    ensures
        apply_repairs(tables, task_repairs(observe(tables))) is Some,
        ({
            let after = apply_repairs(tables, task_repairs(observe(tables)))->0;
            &&& !has_table(tables, CoreTable::Tasks) ==> after == tables
            &&& has_table(tables, CoreTable::Tasks) ==> {
                &&& has_table(after, CoreTable::Tasks)
                &&& after[CoreTable::Tasks.name_spec()].rows == tables[CoreTable::Tasks.name_spec()].rows
                &&& forall|i: int|
                    0 <= i < task_columns().len() ==> has_column(after, #[trigger] task_columns()[i])
                &&& has_table(after, CoreTable::TaskTemplates)
                &&& has_table(after, CoreTable::UserProgress)
                &&& has_table(after, CoreTable::Badges)
                &&& has_table(after, CoreTable::XpHistory)
                &&& has_default_user(after)
                &&& forall|name: Seq<char>| #[trigger]
                    tables.dom().contains(name) ==> after.dom().contains(name)
                &&& forall|name: Seq<char>|
                    name != CoreTable::Tasks.name_spec() && name
                        != CoreTable::UserProgress.name_spec() && #[trigger] tables.dom().contains(
                        name,
                    ) ==> after[name] == tables[name]
                &&& (forall|i: int|
                    0 <= i < task_columns().len() ==> has_column(tables, #[trigger] task_columns()[i]))
                    && has_table(tables, CoreTable::TaskTemplates) && has_table(
                    tables,
                    CoreTable::UserProgress,
                ) && has_table(tables, CoreTable::Badges) && has_table(tables, CoreTable::XpHistory)
                    && has_default_user(tables) ==> after == tables
            }
        }),
{
    let facts = observe(tables);
    if has_table(tables, CoreTable::Tasks) {
        let present = columns_of(tables, CoreTable::Tasks);
        let missing = missing_columns(task_columns(), present);
        let first = additions(missing);
        let second = companion_repairs(facts);
        assert(task_repairs(facts) == first + second);
        lemma_task_columns();
        lemma_table_names_distinct();
        lemma_apply_repairs_concat(tables, first, second);
        lemma_apply_additions(tables, missing);
        lemma_add_missing(tables, CoreTable::Tasks, task_columns());
        let extended = add_columns(tables, missing)->0;
        assert(apply_repairs(tables, first) == Some(extended));
        assert(extended[CoreTable::UserProgress.name_spec()]
            == tables[CoreTable::UserProgress.name_spec()]);
        assert(companion_repairs(observe(extended)) == second);
        lemma_companions(extended);
        lemma_companions_facts(extended);
        let finished = companions(extended);
        assert(apply_repairs(tables, task_repairs(facts)) == Some(finished));
        assert(finished[CoreTable::Tasks.name_spec()] == extended[CoreTable::Tasks.name_spec()]);
        assert forall|i: int| 0 <= i < task_columns().len() implies has_column(
            finished,
            #[trigger] task_columns()[i],
        ) by {
            assert(has_column(extended, task_columns()[i]));
            assert(task_columns()[i].table_spec() == CoreTable::Tasks);
        }
        assert forall|name: Seq<char>|
            name != CoreTable::Tasks.name_spec() && name != CoreTable::UserProgress.name_spec()
                && #[trigger] tables.dom().contains(name) implies finished[name]
            == tables[name] by {
            assert(extended[name] == tables[name]);
            assert(extended.dom().contains(name));
        }
        assert forall|name: Seq<char>| #[trigger] tables.dom().contains(name) implies finished.dom().contains(
            name,
        ) by {
            assert(extended.dom().contains(name));
        }
    } else {
        assert(task_repairs(facts) =~= Seq::<Repair>::empty());
    }
}

/// The reconciler as a whole: every statement it issues is accepted, and
/// afterwards the critical facts hold. It creates and extends, and never
/// removes: each table that existed still exists, and the task table has the
/// rows it had. On a schema of which the facts already hold it changes
/// nothing.
pub proof fn lemma_reconcile(tables: Tables)
    ensures
        reconcile_spec(tables) is Some,
        converged(reconcile_spec(tables)->0),
        has_table(reconcile_spec(tables)->0, CoreTable::Tasks) == has_table(
            tables,
            CoreTable::Tasks,
        ),
        row_count(reconcile_spec(tables)->0, CoreTable::Tasks) == row_count(
            tables,
            CoreTable::Tasks,
        ),
        forall|name: Seq<char>| #[trigger]
            tables.dom().contains(name) ==> reconcile_spec(tables)->0.dom().contains(name),
        converged(tables) ==> reconcile_spec(tables)->0 == tables,
        !has_table(tables, CoreTable::Tasks) ==> reconcile_spec(tables) == apply_repairs(
            tables,
            attachment_repairs(observe(tables).attachment_columns),
        ),
{
    let facts = observe(tables);
    let first = attachment_repairs(facts.attachment_columns);
    let second = task_repairs(facts);
    lemma_table_names_distinct();
    lemma_apply_repairs_concat(tables, first, second);
    lemma_repair_attachments(tables);
    let repaired = apply_repairs(tables, first)->0;
    assert(repaired[CoreTable::Tasks.name_spec()] == tables[CoreTable::Tasks.name_spec()]);
    assert(has_table(repaired, CoreTable::Tasks) == has_table(tables, CoreTable::Tasks));
    assert(has_table(repaired, CoreTable::TaskTemplates) == has_table(
        tables,
        CoreTable::TaskTemplates,
    ));
    assert(repaired[CoreTable::UserProgress.name_spec()]
        == tables[CoreTable::UserProgress.name_spec()]);
    assert(has_table(repaired, CoreTable::UserProgress) == has_table(
        tables,
        CoreTable::UserProgress,
    ));
    assert(has_table(repaired, CoreTable::Badges) == has_table(tables, CoreTable::Badges));
    assert(has_table(repaired, CoreTable::XpHistory) == has_table(tables, CoreTable::XpHistory));
    assert(has_default_user(repaired) == has_default_user(tables));
    assert(second == task_repairs(observe(repaired)));
    lemma_repair_tasks(repaired);
    let after = apply_repairs(repaired, second)->0;
    assert(reconcile_spec(tables) == Some(after));
    assert(after[CoreTable::Attachments.name_spec()] == repaired[CoreTable::Attachments.name_spec()]);
    assert(has_table(after, CoreTable::Attachments));
    assert forall|name: Seq<char>| #[trigger] tables.dom().contains(name) implies after.dom().contains(
        name,
    ) by {
        if name == CoreTable::Attachments.name_spec() {
        } else {
            assert(repaired.dom().contains(name));
            if name == CoreTable::Tasks.name_spec() {
            } else if has_table(repaired, CoreTable::Tasks) {
            }
        }
    }
    if converged(tables) {
        assert(repaired == tables);
        assert(after == tables);
    }
    if !has_table(tables, CoreTable::Tasks) {
        assert(second =~= Seq::<Repair>::empty());
    }
}

/// The critical facts hold exactly where the reconciler finds nothing to
/// repair.
pub proof fn lemma_converged_means_reconciled(tables: Tables)
    ensures
        converged(tables) <==> reconciled(observe(tables)),
{
    let facts = observe(tables);
    let first = attachment_repairs(facts.attachment_columns);
    let second = task_repairs(facts);
    assert(repairs_for(facts).len() == first.len() + second.len());
    lemma_task_columns();
    if has_table(tables, CoreTable::Tasks) {
        let present = columns_of(tables, CoreTable::Tasks);
        let missing = missing_columns(task_columns(), present);
        lemma_missing_columns(task_columns(), present);
        assert(second.len() == missing.len() + creation_repairs(
            Creation::TaskTemplates,
            facts.templates_exist,
        ).len() + creation_repairs(Creation::UserProgress, facts.progress_exists).len()
            + creation_repairs(Creation::Badges, facts.badges_exist).len() + creation_repairs(
            Creation::XpHistory,
            facts.history_exists,
        ).len() + default_user_repairs(facts.default_user_exists).len());
        if missing.len() > 0 {
            assert(missing.contains(missing[0]));
            let j = choose|j: int| 0 <= j < task_columns().len() && task_columns()[j] == missing[0];
            assert(!has_column(tables, task_columns()[j]));
        } else {
            assert forall|i: int| 0 <= i < task_columns().len() implies has_column(
                tables,
                #[trigger] task_columns()[i],
            ) by {
                if !has_column(tables, task_columns()[i]) {
                    assert(task_columns().contains(task_columns()[i]));
                    assert(missing.contains(task_columns()[i]));
                }
            }
        }
    }
}

/// What a run of the engine does to the ledger: the names of the units it
/// applied are appended, in order, and nothing else changes. A ledger without
/// duplicates stays without duplicates whether the run succeeds or not.
pub proof fn lemma_apply_all(db: Database, todo: Seq<UnitSpec>, script: ScriptEffect)
    ensures
        apply_all(db, todo, script).1 ==> apply_all(db, todo, script).0.ledger == db.ledger
            + unit_names(todo),
        ledger_unique(db.ledger) ==> ledger_unique(apply_all(db, todo, script).0.ledger),
        forall|name: Seq<char>| #[trigger]
            db.ledger.contains(name) ==> apply_all(db, todo, script).0.ledger.contains(name),
        todo.len() == 0 ==> apply_all(db, todo, script) == (db, true),
    decreases todo.len(),
{
    if todo.len() > 0 {
        match apply_unit_spec(db, todo[0], script) {
            None => {},
            Some(next) => {
                let rest = todo.drop_first();
                lemma_apply_all(next, rest, script);
                assert(next.ledger == db.ledger.push(todo[0].name));
                assert(!db.ledger.contains(todo[0].name));
                assert(ledger_unique(db.ledger) ==> ledger_unique(next.ledger)) by {
                    if ledger_unique(db.ledger) {
                        assert forall|i: int, j: int|
                            0 <= i < j < next.ledger.len() implies next.ledger[i]
                            != next.ledger[j] by {
                            if j == db.ledger.len() {
                                assert(db.ledger[i] == next.ledger[i]);
                                assert(db.ledger.contains(db.ledger[i]));
                            } else {
                                assert(db.ledger[i] != db.ledger[j]);
                            }
                        }
                    }
                }
                assert forall|name: Seq<char>| #[trigger] db.ledger.contains(name) implies apply_all(
                    db,
                    todo,
                    script,
                ).0.ledger.contains(name) by {
                    let i = choose|i: int| 0 <= i < db.ledger.len() && db.ledger[i] == name;
                    assert(next.ledger[i] == name);
                    assert(next.ledger.contains(name));
                }
                if apply_all(db, todo, script).1 {
                    assert(unit_names(todo) =~= seq![todo[0].name] + unit_names(rest));
                    assert(db.ledger.push(todo[0].name) + unit_names(rest) =~= db.ledger
                        + unit_names(todo));
                }
            },
        }
    }
}

/// Nothing is pending where the ledger names every unit of the catalog.
pub proof fn lemma_nothing_pending(catalog: Seq<UnitSpec>, ledger: Seq<Seq<char>>)
    requires
        forall|i: int| 0 <= i < catalog.len() ==> ledger.contains(#[trigger] catalog[i].name),
    ensures
        pending_units(catalog, ledger).len() == 0,
    decreases catalog.len(),
{
    if catalog.len() == 0 {
        reveal(Seq::filter);
    } else {
        let init = catalog.drop_last();
        assert(catalog =~= init.push(catalog.last()));
        crate::convergence::lemma_pending_push(init, ledger, catalog.last());
        assert forall|i: int| 0 <= i < init.len() implies ledger.contains(
            #[trigger] init[i].name,
        ) by {
            assert(init[i] == catalog[i]);
        }
        lemma_nothing_pending(init, ledger);
        assert(ledger.contains(catalog[catalog.len() - 1].name));
    }
}

/// Every unit of the catalog is either named by the ledger or pending.
pub proof fn lemma_pending_or_recorded(catalog: Seq<UnitSpec>, ledger: Seq<Seq<char>>)
    ensures
        forall|i: int|
            0 <= i < catalog.len() ==> ledger.contains(#[trigger] catalog[i].name) || unit_names(
                pending_units(catalog, ledger),
            ).contains(catalog[i].name),
        forall|i: int|
            0 <= i < pending_units(catalog, ledger).len() ==> !ledger.contains(
                #[trigger] pending_units(catalog, ledger)[i].name,
            ) && catalog.contains(pending_units(catalog, ledger)[i]),
    decreases catalog.len(),
{
    let pending = pending_units(catalog, ledger);
    if catalog.len() == 0 {
        reveal(Seq::filter);
    } else {
        let init = catalog.drop_last();
        let last = catalog.last();
        assert(catalog =~= init.push(last));
        crate::convergence::lemma_pending_push(init, ledger, last);
        lemma_pending_or_recorded(init, ledger);
        let before = pending_units(init, ledger);
        assert forall|i: int| 0 <= i < catalog.len() implies ledger.contains(
            #[trigger] catalog[i].name,
        ) || unit_names(pending).contains(catalog[i].name) by {
            if !ledger.contains(catalog[i].name) {
                if i < init.len() {
                    assert(init[i] == catalog[i]);
                    assert(unit_names(before).contains(init[i].name));
                    let k = choose|k: int|
                        0 <= k < unit_names(before).len() && unit_names(before)[k] == init[i].name;
                    assert(pending[k] == before[k]);
                    assert(unit_names(pending)[k] == catalog[i].name);
                } else {
                    assert(pending.last() == last);
                    assert(unit_names(pending)[pending.len() - 1] == catalog[i].name);
                }
            }
        }
        assert forall|i: int| 0 <= i < pending.len() implies !ledger.contains(
            #[trigger] pending[i].name,
        ) && catalog.contains(pending[i]) by {
            if i < before.len() {
                assert(pending[i] == before[i]);
                assert(init.contains(before[i]));
                let k = choose|k: int| 0 <= k < init.len() && init[k] == before[i];
                assert(catalog[k] == pending[i]);
            } else {
                assert(pending[i] == last);
                assert(catalog[catalog.len() - 1] == last);
            }
        }
    }
}

/// Seeding changes rows only: the same tables exist, with the same columns.
pub proof fn lemma_seed_keeps_schema(tables: Tables)
    ensures
        seed_spec(tables).dom() == tables.dom(),
        forall|name: Seq<char>| #[trigger]
            tables.dom().contains(name) ==> seed_spec(tables)[name].columns
                == tables[name].columns,
        forall|name: Seq<char>|
            name != CoreTable::Tasks.name_spec() ==> #[trigger] seed_spec(tables)[name]
                == tables[name],
        converged(tables) ==> converged(seed_spec(tables)),
{
    lemma_table_names_distinct();
    assert(seed_spec(tables).dom() =~= tables.dom());
    if converged(tables) {
        let seeded = seed_spec(tables);
        assert(seeded[CoreTable::Attachments.name_spec()] == tables[CoreTable::Attachments.name_spec()]);
        if has_table(seeded, CoreTable::Tasks) {
            assert forall|i: int| 0 <= i < task_columns().len() implies has_column(
                seeded,
                #[trigger] task_columns()[i],
            ) by {
                assert(has_column(tables, task_columns()[i]));
            }
        }
    }
}

/// The bootstrap creates and never removes: every table that existed still
/// exists, and is as it was but that the progress table may have gained the
/// default user's row. Where it is not due nothing changes. Where it is due,
/// the baseline tables exist afterwards, each that was missing has the
/// library's columns, the default user's row is there, and the task table is
/// as it was or new and empty.
pub proof fn lemma_bootstrap(tables: Tables, due: bool)
    ensures
        !due ==> bootstrap_spec(tables, due) == tables,
        forall|name: Seq<char>| #[trigger]
            tables.dom().contains(name) ==> bootstrap_spec(tables, due).dom().contains(name),
        forall|name: Seq<char>|
            name != CoreTable::UserProgress.name_spec() && #[trigger] tables.dom().contains(name)
                ==> bootstrap_spec(tables, due)[name] == tables[name],
        due ==> {
            let after = bootstrap_spec(tables, due);
            &&& after == with_default_user(create(tables, Creation::Baseline))
            &&& forall|i: int|
                0 <= i < Creation::Baseline.tables().len() ==> has_table(
                    after,
                    #[trigger] Creation::Baseline.tables()[i],
                )
            &&& forall|i: int|
                0 <= i < Creation::Baseline.tables().len() && !has_table(
                    tables,
                    #[trigger] Creation::Baseline.tables()[i],
                ) && Creation::Baseline.tables()[i] != CoreTable::UserProgress
                    ==> after[Creation::Baseline.tables()[i].name_spec()] == (TableState {
                    columns: Creation::Baseline.tables()[i].columns(),
                    rows: 0,
                })
            &&& has_default_user(after)
            &&& !has_table(tables, CoreTable::UserProgress) ==> after[CoreTable::UserProgress.name_spec()]
                == (TableState { columns: CoreTable::UserProgress.columns(), rows: 1 })
            &&& forall|name: Seq<char>| #[trigger]
                after.dom().contains(name) ==> tables.dom().contains(name) || exists|i: int|
                    0 <= i < Creation::Baseline.tables().len()
                        && Creation::Baseline.tables()[i].name_spec() == name
        },
{
    lemma_create(tables, Creation::Baseline);
    lemma_create_tables(tables, Creation::Baseline.tables());
    lemma_table_names_distinct();
    if due {
        let created = create(tables, Creation::Baseline);
        let after = with_default_user(created);
        let wanted = Creation::Baseline.tables();
        assert(wanted[6] == CoreTable::UserProgress);
        assert(has_table(created, wanted[6]));
        assert(after.dom() =~= created.dom());
        assert forall|i: int| 0 <= i < wanted.len() implies has_table(after, #[trigger] wanted[i]) by {
            assert(has_table(created, wanted[i]));
        }
    }
}

/// Units that leave the tables as they are, and whose names are new to the
/// ledger and differ from one another, are all applied: the tables stay, the
/// names are recorded in order.
pub proof fn lemma_apply_all_unchanged(db: Database, todo: Seq<UnitSpec>, script: ScriptEffect)
    requires
        distinct_names(todo),
        forall|i: int| 0 <= i < todo.len() ==> !db.ledger.contains(#[trigger] todo[i].name),
        forall|i: int|
            0 <= i < todo.len() ==> run_unit(db.tables, #[trigger] todo[i], script) == Some(
                db.tables,
            ),
    ensures
        apply_all(db, todo, script) == (
            Database { tables: db.tables, ledger: db.ledger + unit_names(todo) },
            true,
        ),
    decreases todo.len(),
{
    if todo.len() == 0 {
        assert(db.ledger + unit_names(todo) =~= db.ledger);
    } else {
        let rest = todo.drop_first();
        let next = Database { tables: db.tables, ledger: db.ledger.push(todo[0].name) };
        assert(apply_unit_spec(db, todo[0], script) == Some(next));
        assert forall|i: int| 0 <= i < rest.len() implies !next.ledger.contains(
            #[trigger] rest[i].name,
        ) && run_unit(next.tables, rest[i], script) == Some(next.tables) by {
            assert(rest[i] == todo[i + 1]);
            assert(todo[0].name != todo[i + 1].name);
            if next.ledger.contains(rest[i].name) {
                let k = choose|k: int| 0 <= k < next.ledger.len() && next.ledger[k] == rest[i].name;
                if k < db.ledger.len() {
                    assert(db.ledger[k] == rest[i].name);
                    assert(db.ledger.contains(rest[i].name));
                }
            }
        }
        assert(distinct_names(rest)) by {
            assert forall|i: int, j: int| 0 <= i < j < rest.len() implies rest[i].name
                != rest[j].name by {
                assert(todo[i + 1].name != todo[j + 1].name);
            }
        }
        lemma_apply_all_unchanged(next, rest, script);
        assert(unit_names(todo) =~= seq![todo[0].name] + unit_names(rest));
        assert(next.ledger + unit_names(rest) =~= db.ledger + unit_names(todo));
    }
}

/// With an empty ledger every unit of the catalog is pending.
pub proof fn lemma_all_pending(catalog: Seq<UnitSpec>)
    ensures
        pending_units(catalog, Seq::<Seq<char>>::empty()) == catalog,
    decreases catalog.len(),
{
    let nothing = Seq::<Seq<char>>::empty();
    if catalog.len() == 0 {
        reveal(Seq::filter);
    } else {
        let init = catalog.drop_last();
        assert(catalog =~= init.push(catalog.last()));
        crate::convergence::lemma_pending_push(init, nothing, catalog.last());
        lemma_all_pending(init);
    }
}

} // verus!
