//! A mathematical picture of the database, as far as the startup sequence
//! reads and changes it: which tables exist, which columns and how many rows
//! each has, and which migrations the ledger records.
//!
//! The picture is used in contracts and proofs only. It says what the
//! statements of this library do according to SQLite's documentation; what an
//! arbitrary migration script does is left open and passed in as a function.
//!
//! What the picture leaves out: the ledger table is kept apart from the other
//! tables, so a script is taken not to touch it; a statement fails only for
//! the reasons named here, never for want of disk space or the like; nobody
//! else writes to the database while the sequence runs; and rows are only
//! counted, so the progress table is taken to hold no row but that of the
//! default user.
//!
//! Nothing ties an open connection to this picture: no executable function
//! says in its contract what the database holds afterwards. What is proved
//! over the picture is proved of the steps as the library plans them, not of
//! what SQLite does with them.

use vstd::prelude::*;
use crate::schema::core_tables;
use crate::schema::CoreTable;
use crate::schema::Creation;
use crate::schema::CriticalColumn;

verus! {

/// One table: its column names and its number of rows.
pub struct TableState {
    pub columns: Set<Seq<char>>,
    pub rows: nat,
}

/// The tables of a database, by name.
pub type Tables = Map<Seq<char>, TableState>;

/// The database: the application's tables and the names in the migration
/// ledger, oldest first.
pub struct Database {
    pub tables: Tables,
    pub ledger: Seq<Seq<char>>,
}

/// What a migration script does to the tables: `None` where SQLite rejects it.
pub type ScriptEffect = spec_fn(Seq<char>, Tables) -> Option<Tables>;

/// A database file that has just been created: no table, no ledger entry.
pub open spec fn empty_database() -> Database {
    Database { tables: Map::empty(), ledger: Seq::empty() }
}

/// Whether `table` exists.
pub open spec fn has_table(tables: Tables, table: CoreTable) -> bool {
    tables.dom().contains(table.name_spec())
}

/// The columns that introspection reports for `table`: none where the table
/// does not exist.
pub open spec fn columns_of(tables: Tables, table: CoreTable) -> Set<Seq<char>> {
    if has_table(tables, table) {
        tables[table.name_spec()].columns
    } else {
        Set::empty()
    }
}

/// Whether `column` is present on its table.
pub open spec fn has_column(tables: Tables, column: CriticalColumn) -> bool {
    columns_of(tables, column.table_spec()).contains(column.name_spec())
}

/// `ALTER TABLE .. ADD COLUMN`: accepted where the table exists and lacks the
/// column, rejected otherwise.
pub open spec fn add_column(tables: Tables, column: CriticalColumn) -> Option<Tables> {
    let name = column.table_spec().name_spec();
    if has_table(tables, column.table_spec()) && !has_column(tables, column) {
        Some(
            tables.insert(
                name,
                TableState {
                    columns: tables[name].columns.insert(column.name_spec()),
                    rows: tables[name].rows,
                },
            ),
        )
    } else {
        None
    }
}

/// `CREATE TABLE IF NOT EXISTS`: an empty table with the library's columns
/// where none of that name exists, no change otherwise.
pub open spec fn create_table(tables: Tables, table: CoreTable) -> Tables {
    if has_table(tables, table) {
        tables
    } else {
        tables.insert(table.name_spec(), TableState { columns: table.columns(), rows: 0 })
    }
}

/// The tables after `create_table` on each of `wanted`, in order.
pub open spec fn create_tables(tables: Tables, wanted: Seq<CoreTable>) -> Tables
    decreases wanted.len(),
{
    if wanted.len() == 0 {
        tables
    } else {
        create_tables(create_table(tables, wanted[0]), wanted.drop_first())
    }
}

/// The tables after a creation batch.
pub open spec fn create(tables: Tables, batch: Creation) -> Tables {
    create_tables(tables, batch.tables())
}

/// The tables after `extra` rows were inserted into `table`, which must exist.
pub open spec fn insert_rows(tables: Tables, table: CoreTable, extra: nat) -> Tables {
    let name = table.name_spec();
    tables.insert(
        name,
        TableState { columns: tables[name].columns, rows: tables[name].rows + extra },
    )
}

/// The number of rows of `table`; 0 where it does not exist.
pub open spec fn row_count(tables: Tables, table: CoreTable) -> nat {
    if has_table(tables, table) {
        tables[table.name_spec()].rows
    } else {
        0
    }
}

/// Whether the progress table holds the row of the default user.
pub open spec fn has_default_user(tables: Tables) -> bool {
    row_count(tables, CoreTable::UserProgress) > 0
}

/// `INSERT OR IGNORE` of the default user's row into the progress table,
/// which must exist: one row more where the row was missing, no change
/// otherwise.
pub open spec fn with_default_user(tables: Tables) -> Tables {
    if has_default_user(tables) {
        tables
    } else {
        insert_rows(tables, CoreTable::UserProgress, 1)
    }
}

/// Whether one of the core tables exists.
pub open spec fn any_core_table(tables: Tables) -> bool {
    exists|i: int| 0 <= i < core_tables().len() && has_table(tables, #[trigger] core_tables()[i])
}

/// No name occurs twice in the ledger.
pub open spec fn ledger_unique(ledger: Seq<Seq<char>>) -> bool {
    forall|i: int, j: int| 0 <= i < j < ledger.len() ==> ledger[i] != ledger[j]
}

/// The ledger after `name` was recorded: the insert is rejected where the
/// name is already there.
pub open spec fn record(ledger: Seq<Seq<char>>, name: Seq<char>) -> Option<Seq<Seq<char>>> {
    if ledger.contains(name) {
        None
    } else {
        Some(ledger.push(name))
    }
}

/// Every table of `before` is still there, with its columns and rows.
pub open spec fn kept(before: Tables, after: Tables) -> bool {
    forall|name: Seq<char>| #[trigger]
        before.dom().contains(name) ==> after.dom().contains(name) && after[name] == before[name]
}

} // verus!
