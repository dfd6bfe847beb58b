//! The bootstrap fallback: a database in which, after the pending units were
//! applied, no core table exists and no migration is on record gets the whole
//! baseline schema, and the row of the default user.

use vstd::prelude::*;
use rusqlite::Connection;
use crate::clock::now;
use crate::error::InitError;
use crate::error::InitStage;
use crate::model::create;
use crate::model::with_default_user;
use crate::model::Tables;
use crate::reconciler::default_user_parameters;
use crate::schema::Creation;
use crate::schema::INSERT_DEFAULT_USER;
use crate::sqlite::execute_batch;
use crate::sqlite::execute_with;

verus! {

/// When the bootstrap runs: no core table exists and no migration is on
/// record, both as found after the pending units were applied.
pub open spec fn bootstrap_due(core_table_exists: bool, ledger_empty: bool) -> bool {
    !core_table_exists && ledger_empty
}

/// The tables after the bootstrap step: where it is due, the baseline tables
/// are created and the default user's row is written.
pub open spec fn bootstrap_spec(tables: Tables, due: bool) -> Tables {
    if due {
        with_default_user(create(tables, Creation::Baseline))
    } else {
        tables
    }
}

/// Whether the baseline schema has to be created.
pub fn should_bootstrap(core_table_exists: bool, ledger_empty: bool) -> (due: bool)
    ensures
        due == bootstrap_due(core_table_exists, ledger_empty),
{
    !core_table_exists && ledger_empty
}

/// Creates the baseline schema where it is due, and says whether it did.
/// Where it is not due the database is not touched, and the call cannot
/// fail.
pub fn bootstrap(conn: &Connection, core_table_exists: bool, ledger_empty: bool) -> (r: Result<
    bool,
    InitError,
>)
    ensures
        match r {
            Ok(ran) => ran == bootstrap_due(core_table_exists, ledger_empty),
            Err(e) => e.stage == InitStage::Bootstrap && bootstrap_due(
                core_table_exists,
                ledger_empty,
            ),
        },
{
    if !should_bootstrap(core_table_exists, ledger_empty) {
        return Ok(false);
    }
    if let Err(e) = execute_batch(conn, Creation::Baseline.statement()) {
        return Err(InitError::at(InitStage::Bootstrap, "", &e));
    }
    let params = default_user_parameters(now());
    match execute_with(conn, INSERT_DEFAULT_USER, &params) {
        Ok(_) => Ok(true),
        Err(e) => Err(InitError::at(InitStage::Bootstrap, "", &e)),
    }
}

} // verus!
