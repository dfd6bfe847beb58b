use rusqlite::Connection;
use std::path::PathBuf;
use tempfile::TempDir;
use todo_backend::bootstrap::bootstrap;
use todo_backend::bootstrap::should_bootstrap;
use todo_backend::catalog::catalog_names;
use todo_backend::catalog::has_sql_extension;
use todo_backend::catalog::strategy_for;
use todo_backend::catalog::MigrationUnit;
use todo_backend::catalog::Strategy;
use todo_backend::convergence::apply_pending;
use todo_backend::convergence::in_apply_order;
use todo_backend::convergence::run_unit_steps;
use todo_backend::convergence::unit_result;
use todo_backend::convergence::UnitSteps;
use todo_backend::db::migration_result;
use todo_backend::db::run_migration_steps;
use todo_backend::db::start;
use todo_backend::db::startup_result;
use todo_backend::ledger::ledger_creation;
use todo_backend::ledger::ledger_listing;
use todo_backend::ledger::record_statement;
use todo_backend::reconciler::any_yes;
use todo_backend::reconciler::default_user_parameters;
use todo_backend::reconciler::repair_result;
use todo_backend::reconciler::repair_statement;
use todo_backend::schema::core_table_list;
use todo_backend::seeder::run_seed_steps;
use todo_backend::seeder::seed_result;
use todo_backend::seeder::seed_statement;
use todo_backend::seeder::task_count_query;
use todo_backend::seeder::SeedSteps;
use todo_backend::convergence::apply_unit;
use todo_backend::convergence::columns_to_add;
use todo_backend::convergence::pending;
use todo_backend::db::init_db;
use todo_backend::db::run_migrations;
use todo_backend::db::DbConnection;
use todo_backend::error::InitStage;
use todo_backend::ledger::ensure_table;
use todo_backend::ledger::list_applied;
use todo_backend::ledger::record;
use todo_backend::ledger::MigrationRecord;
use todo_backend::reconciler::plan_repairs;
use todo_backend::reconciler::reconcile;
use todo_backend::reconciler::Repair;
use todo_backend::reconciler::SchemaFacts;
use todo_backend::schema::CoreTable;
use todo_backend::schema::Creation;
use todo_backend::schema::CriticalColumn;
use todo_backend::seeder::seed_initial_data;
use todo_backend::seeder::seed_tasks;
use todo_backend::seeder::should_seed;
use todo_backend::seeder::Seeding;

fn unit(name: &str, body: &str) -> MigrationUnit {
    MigrationUnit { name: name.to_string(), body: body.to_string() }
}

fn names(list: &[&str]) -> Vec<String> {
    list.iter().map(|s| s.to_string()).collect()
}

fn tables(conn: &Connection) -> Vec<String> {
    let mut stmt =
        conn.prepare("SELECT name FROM sqlite_master WHERE type='table' ORDER BY name").unwrap();
    let rows = stmt.query_map([], |row| row.get::<_, String>(0)).unwrap();
    rows.map(|r| r.unwrap()).filter(|n| !n.starts_with("sqlite_")).collect()
}

fn columns(conn: &Connection, table: &str) -> Vec<String> {
    let sql = format!("SELECT name FROM pragma_table_info('{}')", table);
    let mut stmt = conn.prepare(&sql).unwrap();
    let rows = stmt.query_map([], |row| row.get::<_, String>(0)).unwrap();
    rows.map(|r| r.unwrap()).collect()
}

fn schema(conn: &Connection) -> Vec<(String, Vec<String>)> {
    tables(conn).into_iter().map(|t| { let c = columns(conn, &t); (t, c) }).collect()
}

fn count(conn: &Connection, sql: &str) -> i64 {
    conn.query_row(sql, [], |row| row.get(0)).unwrap()
}

fn ledger(conn: &Connection) -> Vec<String> {
    let mut stmt = conn.prepare("SELECT name FROM migrations ORDER BY id").unwrap();
    let rows = stmt.query_map([], |row| row.get::<_, String>(0)).unwrap();
    rows.map(|r| r.unwrap()).collect()
}

const OLD_TASKS: &str = "CREATE TABLE tasks (
    id TEXT PRIMARY KEY,
    title TEXT NOT NULL,
    description TEXT,
    due_at INTEGER,
    created_at INTEGER NOT NULL,
    updated_at INTEGER NOT NULL,
    priority TEXT NOT NULL DEFAULT 'medium',
    completed_at INTEGER,
    project_id TEXT,
    order_index INTEGER DEFAULT 0,
    metadata TEXT
);";

const OLD_ATTACHMENTS: &str = "CREATE TABLE attachments (
    id TEXT PRIMARY KEY,
    task_id TEXT NOT NULL,
    filename TEXT NOT NULL,
    path TEXT NOT NULL,
    mime TEXT,
    created_at INTEGER NOT NULL
);";

fn full_catalog() -> Vec<MigrationUnit> {
    vec![
        unit("0001_init.sql", &format!("CREATE TABLE projects (id TEXT PRIMARY KEY, name TEXT NOT NULL, color TEXT, created_at INTEGER NOT NULL, updated_at INTEGER NOT NULL); {} {}", OLD_TASKS, OLD_ATTACHMENTS)),
        unit("0004_add_recurrence.sql", "ALTER TABLE tasks ADD COLUMN recurrence_type TEXT DEFAULT 'none'; ALTER TABLE tasks ADD COLUMN recurrence_interval INTEGER DEFAULT 1; ALTER TABLE tasks ADD COLUMN recurrence_parent_id TEXT;"),
        unit("0006_add_notification_preferences.sql", "ALTER TABLE tasks ADD COLUMN reminder_minutes_before INTEGER DEFAULT NULL;"),
        unit("0008_add_attachment_size.sql", "ALTER TABLE attachments ADD COLUMN size INTEGER;"),
    ]
}

#[test]
fn fresh_file_with_one_unit() {
    let conn = Connection::open_in_memory().unwrap();
    let catalog = vec![unit("0001_init.sql", "CREATE TABLE projects (id TEXT PRIMARY KEY, name TEXT);")];
    let report = run_migrations(&conn, &catalog).unwrap();
    assert_eq!(report.applied, names(&["0001_init.sql"]));
    assert!(report.previously_applied.is_empty());
    assert_eq!(ledger(&conn), names(&["0001_init.sql"]));
    assert_eq!(count(&conn, "SELECT COUNT(*) FROM migrations WHERE name = '0001_init.sql'"), 1);
    assert!(tables(&conn).contains(&"projects".to_string()));
    assert_eq!(columns(&conn, "projects"), names(&["id", "name"]));
    assert!(!report.bootstrapped);
    assert_eq!(report.core_tables_found, vec![true, false, false, false, false, false]);
    assert_eq!(report.reconciliation.repairs, vec![Repair::Create(Creation::Attachments)]);
    assert_eq!(tables(&conn), names(&["attachments", "migrations", "projects"]));
}

#[test]
fn recurrence_unit_adds_missing_columns_once() {
    let conn = Connection::open_in_memory().unwrap();
    conn.execute_batch(OLD_TASKS).unwrap();
    assert!(!columns(&conn, "tasks").contains(&"recurrence_type".to_string()));
    let catalog = vec![unit("0004_add_recurrence.sql", "this text is never run")];
    let report = run_migrations(&conn, &catalog).unwrap();
    assert_eq!(report.applied, names(&["0004_add_recurrence.sql"]));
    let after = columns(&conn, "tasks");
    assert_eq!(after.iter().filter(|c| c.as_str() == "recurrence_type").count(), 1);
    assert!(after.contains(&"recurrence_interval".to_string()));
    assert!(after.contains(&"recurrence_parent_id".to_string()));
    let default: Option<String> = conn
        .query_row(
            "SELECT dflt_value FROM pragma_table_info('tasks') WHERE name = 'recurrence_type'",
            [],
            |row| row.get(0),
        )
        .unwrap();
    assert_eq!(default, Some("'none'".to_string()));
    conn.execute(
        "INSERT INTO tasks (id, title, created_at, updated_at) VALUES ('t', 'x', 1, 1)",
        [],
    )
    .unwrap();
    let stored: String = conn
        .query_row("SELECT recurrence_type FROM tasks WHERE id = 't'", [], |row| row.get(0))
        .unwrap();
    assert_eq!(stored, "none");

    let again = run_migrations(&conn, &catalog).unwrap();
    assert!(again.applied.is_empty());
    assert_eq!(again.previously_applied, names(&["0004_add_recurrence.sql"]));
    let twice = columns(&conn, "tasks");
    assert_eq!(twice.iter().filter(|c| c.as_str() == "recurrence_type").count(), 1);
    assert_eq!(twice, after);
}

#[test]
fn reconciler_repairs_what_the_ledger_claims() {
    let conn = Connection::open_in_memory().unwrap();
    conn.execute_batch(OLD_TASKS).unwrap();
    conn.execute_batch(
        "ALTER TABLE tasks ADD COLUMN recurrence_type TEXT DEFAULT 'none';
         ALTER TABLE tasks ADD COLUMN recurrence_interval INTEGER DEFAULT 1;",
    )
    .unwrap();
    ensure_table(&conn).unwrap();
    record(&conn, MigrationRecord { name: "0004_add_recurrence.sql".to_string(), applied_at: 7 })
        .unwrap();
    let catalog = vec![unit("0004_add_recurrence.sql", "never run")];
    let report = run_migrations(&conn, &catalog).unwrap();
    assert!(report.applied.is_empty());
    assert!(report.reconciliation.repairs.contains(&Repair::AddColumn(CriticalColumn::RecurrenceParentId)));
    assert!(!report.reconciliation.repairs.contains(&Repair::AddColumn(CriticalColumn::RecurrenceType)));
    assert!(columns(&conn, "tasks").contains(&"recurrence_parent_id".to_string()));
    assert_eq!(ledger(&conn), names(&["0004_add_recurrence.sql"]));
}

#[test]
fn second_start_changes_nothing() {
    let dir = TempDir::new().unwrap();
    let path = dir.path().join("todo.db");
    let catalog = full_catalog();
    let first = init_db(path.clone(), &catalog).unwrap();
    let schema_first = schema(&first.conn);
    let ledger_first = ledger(&first.conn);
    let tasks_first = count(&first.conn, "SELECT COUNT(*) FROM tasks");
    let progress_first = count(&first.conn, "SELECT COUNT(*) FROM user_progress");
    drop(first);
    let second = init_db(path, &catalog).unwrap();
    assert_eq!(schema(&second.conn), schema_first);
    assert_eq!(ledger(&second.conn), ledger_first);
    assert_eq!(count(&second.conn, "SELECT COUNT(*) FROM tasks"), tasks_first);
    assert_eq!(count(&second.conn, "SELECT COUNT(*) FROM user_progress"), progress_first);
    assert_eq!(ledger_first.len(), 4);
    assert_eq!(tasks_first, 5);
    assert_eq!(progress_first, 1);
    let task_columns = columns(&second.conn, "tasks");
    for wanted in ["recurrence_type", "recurrence_interval", "recurrence_parent_id", "reminder_minutes_before", "notification_repeat"] {
        assert_eq!(task_columns.iter().filter(|c| c.as_str() == wanted).count(), 1, "{}", wanted);
    }
    assert_eq!(columns(&second.conn, "attachments").iter().filter(|c| c.as_str() == "size").count(), 1);
}

#[test]
fn second_start_after_bootstrap_changes_nothing() {
    let conn = Connection::open_in_memory().unwrap();
    let first = run_migrations(&conn, &Vec::new()).unwrap();
    assert!(first.bootstrapped);
    assert_eq!(first.core_tables_found, vec![false; 6]);
    for table in ["user_progress", "badges", "xp_history", "task_templates", "tasks"] {
        assert!(tables(&conn).contains(&table.to_string()), "{}", table);
    }
    assert_eq!(count(&conn, "SELECT COUNT(*) FROM user_progress WHERE id = 'default'"), 1);
    let before = schema(&conn);
    let second = run_migrations(&conn, &Vec::new()).unwrap();
    assert!(!second.bootstrapped);
    assert!(second.reconciliation.repairs.is_empty());
    assert_eq!(second.core_tables_found, vec![true; 6]);
    assert_eq!(schema(&conn), before);
    assert_eq!(count(&conn, "SELECT COUNT(*) FROM user_progress"), 1);
}

#[test]
fn second_start_on_a_fresh_file_changes_nothing() {
    let dir = TempDir::new().unwrap();
    let path = dir.path().join("todo.db");
    let first = init_db(path.clone(), &Vec::new()).unwrap();
    let schema_first = schema(&first.conn);
    let indexes_first = count(&first.conn, "SELECT COUNT(*) FROM sqlite_master WHERE type = 'index'");
    assert_eq!(count(&first.conn, "SELECT COUNT(*) FROM tasks"), 5);
    drop(first);
    let second = init_db(path, &Vec::new()).unwrap();
    assert_eq!(schema(&second.conn), schema_first);
    assert_eq!(count(&second.conn, "SELECT COUNT(*) FROM sqlite_master WHERE type = 'index'"), indexes_first);
    assert_eq!(count(&second.conn, "SELECT COUNT(*) FROM tasks"), 5);
    assert_eq!(count(&second.conn, "SELECT COUNT(*) FROM user_progress"), 1);
    assert_eq!(count(&second.conn, "SELECT COUNT(*) FROM migrations"), 0);
}

#[test]
fn bootstrap_is_for_files_without_core_table_and_record() {
    let conn = Connection::open_in_memory().unwrap();
    conn.execute_batch(OLD_ATTACHMENTS).unwrap();
    let report = run_migrations(&conn, &Vec::new()).unwrap();
    assert!(!report.bootstrapped);
    assert_eq!(report.core_tables_found, vec![false, false, false, false, true, false]);
    assert!(!tables(&conn).contains(&"tasks".to_string()));

    let conn = Connection::open_in_memory().unwrap();
    ensure_table(&conn).unwrap();
    record(&conn, MigrationRecord { name: "0001_init.sql".to_string(), applied_at: 1 }).unwrap();
    let report = run_migrations(&conn, &Vec::new()).unwrap();
    assert!(!report.bootstrapped);
    assert_eq!(report.core_tables_found, vec![false; 6]);
    assert!(!tables(&conn).contains(&"tasks".to_string()));

    let conn = Connection::open_in_memory().unwrap();
    conn.execute_batch("CREATE TABLE user_progress (id TEXT PRIMARY KEY, total_xp INTEGER NOT NULL DEFAULT 0, current_level INTEGER NOT NULL DEFAULT 1, current_streak INTEGER NOT NULL DEFAULT 0, longest_streak INTEGER NOT NULL DEFAULT 0, last_completion_date INTEGER, created_at INTEGER NOT NULL, updated_at INTEGER NOT NULL);").unwrap();
    let report = run_migrations(&conn, &Vec::new()).unwrap();
    assert!(report.bootstrapped);
    assert!(tables(&conn).contains(&"tasks".to_string()));
    assert_eq!(count(&conn, "SELECT COUNT(*) FROM user_progress WHERE id = 'default'"), 1);
    assert!(run_migrations(&conn, &Vec::new()).unwrap().reconciliation.repairs.is_empty());
}

#[test]
fn reconciler_repairs_each_progress_fact() {
    let conn = Connection::open_in_memory().unwrap();
    conn.execute_batch(Creation::Baseline.statement()).unwrap();
    conn.execute_batch("DROP TABLE badges; DROP TABLE xp_history;").unwrap();
    let done = reconcile(&conn).unwrap();
    assert!(done.facts.progress_exists && !done.facts.badges_exist && !done.facts.history_exists && !done.facts.default_user_exists);
    assert_eq!(done.repairs, vec![Repair::Create(Creation::Badges), Repair::Create(Creation::XpHistory), Repair::DefaultUser]);
    assert!(tables(&conn).contains(&"badges".to_string()));
    assert!(tables(&conn).contains(&"xp_history".to_string()));
    assert_eq!(count(&conn, "SELECT COUNT(*) FROM user_progress WHERE id = 'default' AND total_xp = 0 AND current_level = 1"), 1);
    assert!(reconcile(&conn).unwrap().repairs.is_empty());

    conn.execute_batch("DELETE FROM user_progress;").unwrap();
    let done = reconcile(&conn).unwrap();
    assert_eq!(done.repairs, vec![Repair::DefaultUser]);
    assert_eq!(count(&conn, "SELECT COUNT(*) FROM user_progress"), 1);

    conn.execute_batch("DROP TABLE user_progress;").unwrap();
    let done = reconcile(&conn).unwrap();
    assert!(!done.facts.progress_exists && !done.facts.default_user_exists);
    assert_eq!(done.repairs, vec![Repair::Create(Creation::UserProgress), Repair::DefaultUser]);
    assert_eq!(count(&conn, "SELECT COUNT(*) FROM user_progress WHERE id = 'default'"), 1);

    conn.execute_batch("UPDATE user_progress SET total_xp = 40;").unwrap();
    assert!(reconcile(&conn).unwrap().repairs.is_empty());
    assert_eq!(count(&conn, "SELECT total_xp FROM user_progress WHERE id = 'default'"), 40);
}

#[test]
fn ledger_holds_each_name_once() {
    let dir = TempDir::new().unwrap();
    let path = dir.path().join("todo.db");
    let catalog = full_catalog();
    for _ in 0..3 {
        let db = init_db(path.clone(), &catalog).unwrap();
        for unit in &catalog {
            let n: i64 = db
                .conn
                .query_row("SELECT COUNT(*) FROM migrations WHERE name = ?1", [&unit.name], |row| row.get(0))
                .unwrap();
            assert_eq!(n, 1);
        }
        assert_eq!(count(&db.conn, "SELECT COUNT(*) FROM migrations"), 4);
    }
}

#[test]
fn second_record_of_a_name_is_rejected() {
    let conn = Connection::open_in_memory().unwrap();
    ensure_table(&conn).unwrap();
    ensure_table(&conn).unwrap();
    record(&conn, MigrationRecord { name: "0001_init.sql".to_string(), applied_at: 10 }).unwrap();
    let again = record(&conn, MigrationRecord { name: "0001_init.sql".to_string(), applied_at: 11 });
    let error = again.unwrap_err();
    assert_eq!(error.stage, InitStage::Migration);
    assert!(error.to_text().contains("UNIQUE"));
    assert_eq!(list_applied(&conn).unwrap(), names(&["0001_init.sql"]));
    let at: i64 = conn.query_row("SELECT applied_at FROM migrations", [], |row| row.get(0)).unwrap();
    assert_eq!(at, 10);
}

#[test]
fn duplicate_unit_in_catalog_fails_and_rolls_back() {
    let conn = Connection::open_in_memory().unwrap();
    ensure_table(&conn).unwrap();
    let catalog = vec![
        unit("0001_a.sql", "CREATE TABLE IF NOT EXISTS a (x INTEGER);"),
        unit("0001_a.sql", "CREATE TABLE b (x INTEGER);"),
        unit("0002_c.sql", "CREATE TABLE c (x INTEGER);"),
    ];
    let failure = apply_pending(&conn, &catalog, &Vec::new()).unwrap_err();
    assert_eq!(failure.applied, names(&["0001_a.sql"]));
    assert_eq!(failure.unit, "0001_a.sql");
    assert_eq!(failure.error.stage, InitStage::Migration);
    assert_eq!(ledger(&conn), names(&["0001_a.sql"]));
    assert_eq!(tables(&conn), names(&["a", "migrations"]));
}

#[test]
fn lost_ledger_is_harmless() {
    let dir = TempDir::new().unwrap();
    let path = dir.path().join("todo.db");
    let guarded = vec![
        unit("0004_add_recurrence.sql", "ALTER TABLE tasks ADD COLUMN recurrence_type TEXT DEFAULT 'none';"),
        unit("0006_add_notification_preferences.sql", "ALTER TABLE tasks ADD COLUMN reminder_minutes_before INTEGER;"),
        unit("0008_add_attachment_size.sql", "ALTER TABLE attachments ADD COLUMN size INTEGER;"),
    ];
    let db = init_db(path.clone(), &full_catalog()).unwrap();
    let before = schema(&db.conn);
    let rows = count(&db.conn, "SELECT COUNT(*) FROM tasks");
    db.conn.execute("DELETE FROM migrations", []).unwrap();
    let report = run_migrations(&db.conn, &guarded).unwrap();
    assert!(report.previously_applied.is_empty());
    assert_eq!(report.applied, names(&["0004_add_recurrence.sql", "0006_add_notification_preferences.sql", "0008_add_attachment_size.sql"]));
    assert!(report.reconciliation.repairs.is_empty());
    assert!(!report.bootstrapped);
    assert_eq!(schema(&db.conn), before);
    assert_eq!(seed_initial_data(&db.conn).unwrap(), Seeding { table_exists: true, rows: 5, seeded: false });
    assert_eq!(count(&db.conn, "SELECT COUNT(*) FROM tasks"), rows);
    assert_eq!(ledger(&db.conn).len(), 3);
}

#[test]
fn fresh_file_without_catalog_is_bootstrapped() {
    let conn = Connection::open_in_memory().unwrap();
    let report = run_migrations(&conn, &Vec::new()).unwrap();
    assert!(report.bootstrapped);
    assert!(report.applied.is_empty());
    assert_eq!(report.reconciliation.repairs, vec![Repair::Create(Creation::Attachments)]);
    assert_eq!(
        tables(&conn),
        names(&["attachments", "badges", "migrations", "projects", "settings", "subtasks", "tasks", "task_templates", "user_progress", "xp_history"])
            .into_iter()
            .collect::<std::collections::BTreeSet<_>>()
            .into_iter()
            .collect::<Vec<_>>()
    );
    for table in ["attachments", "badges", "projects", "settings", "subtasks", "tasks", "task_templates", "xp_history", "migrations"] {
        assert_eq!(count(&conn, &format!("SELECT COUNT(*) FROM {}", table)), 0, "{}", table);
    }
    assert_eq!(count(&conn, "SELECT COUNT(*) FROM user_progress"), 1);
    assert_eq!(count(&conn, "SELECT COUNT(*) FROM user_progress WHERE id = 'default' AND total_xp = 0 AND current_level = 1"), 1);
    assert_eq!(
        columns(&conn, "tasks"),
        names(&[
            "id", "title", "description", "due_at", "created_at", "updated_at", "priority",
            "completed_at", "project_id", "order_index", "metadata", "recurrence_type",
            "recurrence_interval", "recurrence_parent_id", "reminder_minutes_before",
            "notification_repeat"
        ])
    );
    assert_eq!(columns(&conn, "projects"), names(&["id", "name", "color", "created_at", "updated_at"]));
    assert_eq!(columns(&conn, "settings"), names(&["key", "value"]));
    assert_eq!(columns(&conn, "subtasks"), names(&["id", "task_id", "title", "completed"]));
    assert_eq!(columns(&conn, "attachments"), names(&["id", "task_id", "filename", "path", "mime", "size", "created_at"]));
    assert_eq!(columns(&conn, "task_templates"), names(&["id", "name", "title", "description", "priority", "project_id", "created_at", "updated_at"]));
    assert_eq!(seed_initial_data(&conn).unwrap(), Seeding { table_exists: true, rows: 0, seeded: true });
    assert_eq!(count(&conn, "SELECT COUNT(*) FROM tasks"), 5);
}

#[test]
fn created_tables_have_the_columns_of_the_model() {
    let conn = Connection::open_in_memory().unwrap();
    for batch in [Creation::Baseline, Creation::UserProgress, Creation::Badges, Creation::XpHistory, Creation::NotificationSchedule, Creation::Attachments, Creation::TaskTemplates] {
        conn.execute_batch(batch.statement()).unwrap();
        conn.execute_batch(batch.statement()).unwrap();
    }
    let all = [
        CoreTable::Projects, CoreTable::Tasks, CoreTable::Settings, CoreTable::Subtasks,
        CoreTable::Attachments, CoreTable::TaskTemplates, CoreTable::UserProgress,
        CoreTable::Badges, CoreTable::XpHistory, CoreTable::NotificationSchedule,
    ];
    for table in all {
        assert_eq!(count(&conn, &table.existence_query()), 1, "{}", table.name());
        let mut stmt = conn.prepare(&table.columns_query()).unwrap();
        let found: Vec<String> = stmt.query_map([], |row| row.get(0)).unwrap().map(|r| r.unwrap()).collect();
        assert_eq!(found, columns(&conn, table.name()));
        assert!(!found.is_empty());
    }
    assert_eq!(CoreTable::Tasks.existence_query(), "SELECT COUNT(*) FROM sqlite_master WHERE type='table' AND name='tasks'");
    assert_eq!(CoreTable::Attachments.columns_query(), "SELECT name FROM pragma_table_info('attachments')");
    assert_eq!(columns(&conn, "user_progress"), names(&["id", "total_xp", "current_level", "current_streak", "longest_streak", "last_completion_date", "created_at", "updated_at"]));
    assert_eq!(columns(&conn, "badges"), names(&["id", "user_id", "badge_type", "earned_at", "metadata"]));
    assert_eq!(columns(&conn, "xp_history"), names(&["id", "user_id", "xp_amount", "source", "task_id", "created_at"]));
    assert_eq!(columns(&conn, "notification_schedule"), names(&["id", "task_id", "scheduled_at", "snooze_until", "created_at"]));
    for column in [
        CriticalColumn::AttachmentSize, CriticalColumn::RecurrenceType, CriticalColumn::RecurrenceInterval,
        CriticalColumn::RecurrenceParentId, CriticalColumn::ReminderMinutesBefore, CriticalColumn::NotificationRepeat,
    ] {
        assert!(columns(&conn, column.table().name()).contains(&column.name().to_string()));
        assert!(conn.execute_batch(column.statement()).is_err(), "{}", column.name());
    }
}

#[test]
fn guarded_statements_add_their_columns() {
    let conn = Connection::open_in_memory().unwrap();
    conn.execute_batch(OLD_TASKS).unwrap();
    conn.execute_batch(OLD_ATTACHMENTS).unwrap();
    for column in [
        CriticalColumn::AttachmentSize, CriticalColumn::RecurrenceType, CriticalColumn::RecurrenceInterval,
        CriticalColumn::RecurrenceParentId, CriticalColumn::ReminderMinutesBefore, CriticalColumn::NotificationRepeat,
    ] {
        assert!(!columns(&conn, column.table().name()).contains(&column.name().to_string()));
        conn.execute_batch(column.statement()).unwrap();
        assert!(columns(&conn, column.table().name()).contains(&column.name().to_string()));
    }
}

#[test]
fn seeding_is_done_once() {
    let conn = Connection::open_in_memory().unwrap();
    assert_eq!(seed_initial_data(&conn).unwrap(), Seeding { table_exists: false, rows: 0, seeded: false });
    conn.execute_batch(Creation::Baseline.statement()).unwrap();
    assert_eq!(seed_initial_data(&conn).unwrap(), Seeding { table_exists: true, rows: 0, seeded: true });
    assert_eq!(count(&conn, "SELECT COUNT(*) FROM tasks"), 5);
    assert_eq!(seed_initial_data(&conn).unwrap(), Seeding { table_exists: true, rows: 5, seeded: false });
    assert_eq!(count(&conn, "SELECT COUNT(*) FROM tasks"), 5);
    assert_eq!(count(&conn, "SELECT COUNT(DISTINCT id) FROM tasks"), 5);
    assert_eq!(count(&conn, "SELECT COUNT(*) FROM tasks WHERE completed_at IS NOT NULL"), 2);
    assert_eq!(count(&conn, "SELECT COUNT(*) FROM tasks WHERE length(id) = 36"), 5);
}

#[test]
fn seeding_leaves_a_task_table_with_rows_alone() {
    let conn = Connection::open_in_memory().unwrap();
    conn.execute_batch(Creation::Baseline.statement()).unwrap();
    conn.execute("INSERT INTO tasks (id, title, created_at, updated_at) VALUES ('mine', 'Mine', 1, 1)", []).unwrap();
    assert_eq!(seed_initial_data(&conn).unwrap(), Seeding { table_exists: true, rows: 1, seeded: false });
    assert_eq!(count(&conn, "SELECT COUNT(*) FROM tasks"), 1);
}

#[test]
fn seed_rows_are_the_five_examples() {
    let now = 1_700_000_000;
    let tasks = seed_tasks(now);
    assert_eq!(tasks.len(), 5);
    let got: Vec<(String, bool, i64, String)> =
        tasks.iter().map(|t| (t.title.clone(), t.completed, t.due_at, t.priority.clone())).collect();
    assert_eq!(
        got,
        vec![
            ("Complete project setup".to_string(), false, now, "high".to_string()),
            ("Review design mockups".to_string(), false, now + 2 * 86400, "medium".to_string()),
            ("Write documentation".to_string(), true, now - 86400, "low".to_string()),
            ("Schedule team meeting".to_string(), false, now + 5 * 86400, "medium".to_string()),
            ("Fix bug in authentication".to_string(), true, now, "high".to_string()),
        ]
    );
    let late = seed_tasks(i64::MAX);
    assert_eq!(late[1].due_at, i64::MAX);
    assert_eq!(late[2].due_at, i64::MAX - 86400);
    let early = seed_tasks(i64::MIN);
    assert_eq!(early[2].due_at, i64::MIN);
}

#[test]
fn seed_and_bootstrap_conditions() {
    assert!(should_seed(true, 0));
    assert!(!should_seed(true, 1));
    assert!(!should_seed(true, 5));
    assert!(!should_seed(false, 0));
    assert!(should_bootstrap(false, true));
    assert!(!should_bootstrap(true, true));
    assert!(!should_bootstrap(false, false));
    assert!(!should_bootstrap(true, false));
}

#[test]
fn bootstrap_runs_only_when_due() {
    let conn = Connection::open_in_memory().unwrap();
    assert_eq!(bootstrap(&conn, false, false).unwrap(), false);
    assert_eq!(bootstrap(&conn, true, true).unwrap(), false);
    assert_eq!(bootstrap(&conn, true, false).unwrap(), false);
    assert!(tables(&conn).is_empty());
    assert_eq!(bootstrap(&conn, false, true).unwrap(), true);
    assert_eq!(tables(&conn).len(), 9);
    assert_eq!(count(&conn, "SELECT COUNT(*) FROM user_progress WHERE id = 'default'"), 1);
    assert!(reconcile(&conn).unwrap().repairs.is_empty());
}

#[test]
fn catalog_is_the_sql_files_in_order() {
    let entries = names(&["0010_j.sql", "readme.md", "0002_b.sql", ".sql", "0001_a.sql", "notes.SQL", "0003_c.sql.bak", "x.sql"]);
    assert_eq!(catalog_names(&entries), names(&["0001_a.sql", "0002_b.sql", "0010_j.sql", "x.sql"]));
    assert!(catalog_names(&Vec::new()).is_empty());
    assert!(has_sql_extension("a.sql"));
    assert!(!has_sql_extension(".sql"));
    assert!(!has_sql_extension("sql"));
    assert!(!has_sql_extension("a.sqlx"));
    assert!(!has_sql_extension(""));
    assert!(has_sql_extension("\u{fc}.sql"));
}

#[test]
fn pending_is_the_catalog_less_the_ledger() {
    let catalog = vec![unit("a.sql", "A"), unit("b.sql", "B"), unit("c.sql", "C")];
    let todo = pending(&catalog, &names(&["b.sql", "zzz.sql"]));
    let got: Vec<(String, String)> = todo.iter().map(|u| (u.name.clone(), u.body.clone())).collect();
    assert_eq!(got, vec![("a.sql".to_string(), "A".to_string()), ("c.sql".to_string(), "C".to_string())]);
    assert!(pending(&catalog, &names(&["a.sql", "b.sql", "c.sql"])).is_empty());
    assert_eq!(pending(&catalog, &Vec::new()).len(), 3);
    assert!(pending(&Vec::new(), &names(&["a.sql"])).is_empty());
}

#[test]
fn strategies_by_name() {
    match strategy_for("0004_add_recurrence.sql") {
        Strategy::Guarded(guard) => {
            assert_eq!(guard.table, CoreTable::Tasks);
            assert_eq!(guard.columns, vec![CriticalColumn::RecurrenceType, CriticalColumn::RecurrenceInterval, CriticalColumn::RecurrenceParentId]);
            assert_eq!(guard.creation, None);
        }
        Strategy::RunRawSql => panic!("guard expected"),
    }
    match strategy_for("0008_add_attachment_size.sql") {
        Strategy::Guarded(guard) => {
            assert_eq!(guard.table, CoreTable::Attachments);
            assert_eq!(guard.columns, vec![CriticalColumn::AttachmentSize]);
            assert_eq!(guard.creation, None);
        }
        Strategy::RunRawSql => panic!("guard expected"),
    }
    match strategy_for("0006_add_notification_preferences.sql") {
        Strategy::Guarded(guard) => {
            assert_eq!(guard.table, CoreTable::Tasks);
            assert_eq!(guard.columns, vec![CriticalColumn::ReminderMinutesBefore, CriticalColumn::NotificationRepeat]);
            assert_eq!(guard.creation, Some(Creation::NotificationSchedule));
        }
        Strategy::RunRawSql => panic!("guard expected"),
    }
    assert!(matches!(strategy_for("0001_init.sql"), Strategy::RunRawSql));
    assert!(matches!(strategy_for("0004_add_recurrence"), Strategy::RunRawSql));
    assert!(matches!(strategy_for(""), Strategy::RunRawSql));
}

#[test]
fn columns_to_add_are_the_missing_ones_in_order() {
    let wanted = vec![CriticalColumn::RecurrenceType, CriticalColumn::RecurrenceInterval, CriticalColumn::RecurrenceParentId];
    assert_eq!(columns_to_add(&wanted, &names(&["id", "recurrence_interval"])), vec![CriticalColumn::RecurrenceType, CriticalColumn::RecurrenceParentId]);
    assert_eq!(columns_to_add(&wanted, &Vec::new()), wanted);
    assert!(columns_to_add(&wanted, &names(&["recurrence_parent_id", "recurrence_type", "recurrence_interval"])).is_empty());
    assert!(columns_to_add(&Vec::new(), &names(&["id"])).is_empty());
}

fn facts(attachment: Option<&[&str]>, task: Option<&[&str]>, found: [bool; 5]) -> SchemaFacts {
    SchemaFacts {
        attachment_columns: attachment.map(names),
        task_columns: task.map(names),
        templates_exist: found[0],
        progress_exists: found[1],
        badges_exist: found[2],
        history_exists: found[3],
        default_user_exists: found[4],
    }
}

#[test]
fn repairs_follow_the_facts() {
    let nothing = facts(None, None, [false; 5]);
    assert_eq!(plan_repairs(&nothing), vec![Repair::Create(Creation::Attachments)]);
    let old = facts(
        Some(&["id", "task_id"]),
        Some(&["id", "title", "recurrence_interval", "notification_repeat"]),
        [false, true, true, true, true],
    );
    assert_eq!(
        plan_repairs(&old),
        vec![
            Repair::AddColumn(CriticalColumn::AttachmentSize),
            Repair::AddColumn(CriticalColumn::RecurrenceType),
            Repair::AddColumn(CriticalColumn::RecurrenceParentId),
            Repair::AddColumn(CriticalColumn::ReminderMinutesBefore),
            Repair::Create(Creation::TaskTemplates),
        ]
    );
    let all: &[&str] = &["recurrence_type", "recurrence_interval", "recurrence_parent_id", "reminder_minutes_before", "notification_repeat"];
    assert!(plan_repairs(&facts(Some(&["size"]), Some(all), [true; 5])).is_empty());
    assert!(plan_repairs(&facts(Some(&["size"]), None, [false; 5])).is_empty());
    assert_eq!(
        plan_repairs(&facts(Some(&["size"]), Some(all), [true, false, false, false, false])),
        vec![Repair::Create(Creation::UserProgress), Repair::Create(Creation::Badges), Repair::Create(Creation::XpHistory), Repair::DefaultUser]
    );
    assert_eq!(plan_repairs(&facts(Some(&["size"]), Some(all), [true, true, false, true, true])), vec![Repair::Create(Creation::Badges)]);
    assert_eq!(plan_repairs(&facts(Some(&["size"]), Some(all), [true, true, true, false, true])), vec![Repair::Create(Creation::XpHistory)]);
    assert_eq!(plan_repairs(&facts(Some(&["size"]), Some(all), [true, true, true, true, false])), vec![Repair::DefaultUser]);
}

#[test]
fn reconcile_reports_what_it_found_and_did() {
    let conn = Connection::open_in_memory().unwrap();
    conn.execute_batch(OLD_TASKS).unwrap();
    conn.execute_batch(OLD_ATTACHMENTS).unwrap();
    let done = reconcile(&conn).unwrap();
    assert_eq!(done.repairs, plan_repairs(&done.facts));
    assert_eq!(done.repairs.len(), 11);
    assert_eq!(done.facts.attachment_columns, Some(names(&["id", "task_id", "filename", "path", "mime", "created_at"])));
    assert!(!done.facts.templates_exist);
    assert!(!done.facts.progress_exists);
    assert_eq!(count(&conn, "SELECT COUNT(*) FROM user_progress WHERE id = 'default' AND total_xp = 0 AND current_level = 1"), 1);
    let again = reconcile(&conn).unwrap();
    assert!(again.repairs.is_empty());
    assert!(again.facts.templates_exist);
    assert!(again.facts.progress_exists);
    assert_eq!(count(&conn, "SELECT COUNT(*) FROM user_progress"), 1);
}

#[test]
fn failed_unit_is_rolled_back_and_stays_pending() {
    let conn = Connection::open_in_memory().unwrap();
    ensure_table(&conn).unwrap();
    let bad = unit("0002_bad.sql", "CREATE TABLE half (x INTEGER); THIS IS NOT SQL;");
    let error = apply_unit(&conn, &bad).unwrap_err();
    assert_eq!(error.stage, InitStage::Migration);
    assert!(!error.to_text().is_empty());
    assert!(!tables(&conn).contains(&"half".to_string()));
    assert!(list_applied(&conn).unwrap().is_empty());

    let catalog = vec![unit("0001_ok.sql", "CREATE TABLE ok (x INTEGER);"), bad, unit("0003_later.sql", "CREATE TABLE later (x INTEGER);")];
    let failure = run_migrations(&conn, &catalog).unwrap_err();
    assert_eq!(failure.stage, InitStage::Migration);
    assert_eq!(ledger(&conn), names(&["0001_ok.sql"]));
    assert!(tables(&conn).contains(&"ok".to_string()));
    assert!(!tables(&conn).contains(&"half".to_string()));
    assert!(!tables(&conn).contains(&"later".to_string()));
    assert!(!tables(&conn).contains(&"attachments".to_string()));

    let again = run_migrations(&conn, &catalog).unwrap_err();
    assert_eq!(again.stage, InitStage::Migration);
    assert_eq!(ledger(&conn), names(&["0001_ok.sql"]));
}

#[test]
fn guarded_unit_fails_without_its_table() {
    let conn = Connection::open_in_memory().unwrap();
    ensure_table(&conn).unwrap();
    let error = apply_unit(&conn, &unit("0004_add_recurrence.sql", "")).unwrap_err();
    assert_eq!(error.stage, InitStage::Migration);
    assert!(list_applied(&conn).unwrap().is_empty());
}

#[test]
fn notification_unit_creates_the_schedule() {
    let conn = Connection::open_in_memory().unwrap();
    conn.execute_batch(OLD_TASKS).unwrap();
    ensure_table(&conn).unwrap();
    apply_unit(&conn, &unit("0006_add_notification_preferences.sql", "not run")).unwrap();
    assert!(tables(&conn).contains(&"notification_schedule".to_string()));
    let found = columns(&conn, "tasks");
    assert!(found.contains(&"reminder_minutes_before".to_string()));
    assert!(found.contains(&"notification_repeat".to_string()));
    assert_eq!(list_applied(&conn).unwrap(), names(&["0006_add_notification_preferences.sql"]));
    let at: i64 = conn.query_row("SELECT applied_at FROM migrations", [], |row| row.get(0)).unwrap();
    assert!(at > 1_600_000_000);
}

#[test]
fn empty_catalog_cannot_fail_at_a_unit() {
    let conn = Connection::open_in_memory().unwrap();
    ensure_table(&conn).unwrap();
    assert!(apply_pending(&conn, &Vec::new(), &Vec::new()).unwrap().is_empty());
    assert!(apply_pending(&conn, &Vec::new(), &names(&["0001_init.sql"])).unwrap().is_empty());
    conn.execute_batch("PRAGMA query_only = ON;").unwrap();
    assert!(apply_pending(&conn, &Vec::new(), &Vec::new()).unwrap().is_empty());
    let error = run_migrations(&conn, &Vec::new()).unwrap_err();
    assert_ne!(error.stage, InitStage::Migration);
}

#[test]
fn unopenable_file_fails_at_open() {
    let dir = TempDir::new().unwrap();
    let path = dir.path().join("no").join("such").join("dir").join("todo.db");
    let error = match init_db(path, &Vec::new()) {
        Ok(_) => panic!("open should fail"),
        Err(e) => e,
    };
    assert_eq!(error.stage, InitStage::Open);
    assert!(DbConnection::new(PathBuf::from(dir.path().join("missing").join("x.db"))).is_err());
}

#[test]
fn read_only_database_fails_at_the_ledger() {
    let dir = TempDir::new().unwrap();
    let path = dir.path().join("todo.db");
    drop(Connection::open(&path).unwrap());
    let conn = Connection::open_with_flags(&path, rusqlite::OpenFlags::SQLITE_OPEN_READ_ONLY).unwrap();
    let error = run_migrations(&conn, &Vec::new()).unwrap_err();
    assert_eq!(error.stage, InitStage::Ledger);
}

#[test]
fn unwritable_schema_fails_at_reconcile_and_bootstrap() {
    let conn = Connection::open_in_memory().unwrap();
    ensure_table(&conn).unwrap();
    conn.execute_batch("PRAGMA query_only = ON;").unwrap();
    let error = run_migrations(&conn, &Vec::new()).unwrap_err();
    assert_eq!(error.stage, InitStage::Reconcile);
    let error = bootstrap(&conn, false, true).unwrap_err();
    assert_eq!(error.stage, InitStage::Bootstrap);
    assert_eq!(bootstrap(&conn, true, true).unwrap(), false);
}

#[test]
fn seeding_a_foreign_task_table_fails_at_seed() {
    let conn = Connection::open_in_memory().unwrap();
    conn.execute_batch("CREATE TABLE tasks (id TEXT PRIMARY KEY);").unwrap();
    let error = seed_initial_data(&conn).unwrap_err();
    assert_eq!(error.stage, InitStage::Seed);
    assert_eq!(count(&conn, "SELECT COUNT(*) FROM tasks"), 0);
}

#[test]
fn units_are_taken_by_ascending_name() {
    let conn = Connection::open_in_memory().unwrap();
    let catalog = vec![
        unit("0003_c.sql", "ALTER TABLE a ADD COLUMN z INTEGER;"),
        unit("0001_a.sql", "CREATE TABLE a (x INTEGER);"),
        unit("0002_b.sql", "ALTER TABLE a ADD COLUMN y INTEGER;"),
    ];
    let ordered = in_apply_order(&catalog);
    assert_eq!(ordered.iter().map(|u| u.name.clone()).collect::<Vec<_>>(), names(&["0001_a.sql", "0002_b.sql", "0003_c.sql"]));
    assert_eq!(ordered[0].body, "CREATE TABLE a (x INTEGER);");
    assert!(in_apply_order(&Vec::new()).is_empty());
    let report = run_migrations(&conn, &catalog).unwrap();
    assert_eq!(report.catalog.iter().map(|u| u.name.clone()).collect::<Vec<_>>(), names(&["0001_a.sql", "0002_b.sql", "0003_c.sql"]));
    assert_eq!(report.applied, names(&["0001_a.sql", "0002_b.sql", "0003_c.sql"]));
    assert_eq!(ledger(&conn), names(&["0001_a.sql", "0002_b.sql", "0003_c.sql"]));
    assert_eq!(columns(&conn, "a"), names(&["x", "y", "z"]));
}

#[test]
fn steps_of_a_unit_stop_at_the_first_failure() {
    let conn = Connection::open_in_memory().unwrap();
    ensure_table(&conn).unwrap();
    let steps = run_unit_steps(&conn, &unit("0001_ok.sql", "CREATE TABLE ok (x INTEGER);"));
    assert!(steps.begun.is_ok());
    assert_eq!(steps.changed, Some(Ok(())));
    assert_eq!(steps.recorded, Some(Ok(())));
    assert_eq!(steps.committed, Some(Ok(())));
    assert!(unit_result(&steps).is_ok());

    let steps = run_unit_steps(&conn, &unit("0002_bad.sql", "CREATE TABLE half (x INTEGER); NOT SQL;"));
    assert!(steps.begun.is_ok());
    assert!(matches!(steps.changed, Some(Err(_))));
    assert_eq!(steps.recorded, None);
    assert_eq!(steps.committed, None);
    let error = unit_result(&steps).unwrap_err();
    assert_eq!(error.stage, InitStage::Migration);
    assert_eq!(Some(Err(error.to_text())), steps.changed);
    assert!(!tables(&conn).contains(&"half".to_string()));

    let steps = run_unit_steps(&conn, &unit("0001_ok.sql", "CREATE TABLE again (x INTEGER);"));
    assert_eq!(steps.changed, Some(Ok(())));
    assert!(matches!(&steps.recorded, Some(Err(said)) if said.contains("UNIQUE")));
    assert_eq!(steps.committed, None);
    assert!(unit_result(&steps).is_err());
    assert!(!tables(&conn).contains(&"again".to_string()));
    assert_eq!(ledger(&conn), names(&["0001_ok.sql"]));

    let made_up = UnitSteps { begun: Err("locked".to_string()), changed: None, recorded: None, committed: None };
    assert_eq!(unit_result(&made_up).unwrap_err().to_text(), "locked");
    let made_up = UnitSteps { begun: Ok(()), changed: Some(Ok(())), recorded: Some(Ok(())), committed: Some(Err("disk full".to_string())) };
    assert_eq!(unit_result(&made_up).unwrap_err().to_text(), "disk full");
    let made_up = UnitSteps { begun: Ok(()), changed: Some(Ok(())), recorded: None, committed: None };
    assert!(unit_result(&made_up).is_err());

    let catalog = vec![unit("0003_x.sql", "CREATE TABLE x (a INTEGER);"), unit("0004_bad.sql", "NOT SQL;"), unit("0005_y.sql", "CREATE TABLE y (a INTEGER);")];
    let failure = apply_pending(&conn, &catalog, &names(&["0001_ok.sql"])).unwrap_err();
    assert_eq!(failure.applied, names(&["0003_x.sql"]));
    assert_eq!(failure.unit, "0004_bad.sql");
    assert!(matches!(failure.steps.changed, Some(Err(_))));
    assert_eq!(failure.steps.recorded, None);
    assert_eq!(Some(Err(failure.error.to_text())), failure.steps.changed);
    assert!(!tables(&conn).contains(&"y".to_string()));
}

#[test]
fn steps_of_the_seeder() {
    let conn = Connection::open_in_memory().unwrap();
    let steps = run_seed_steps(&conn);
    assert_eq!(steps.looked, Ok(false));
    assert!(steps.counted.is_none() && steps.begun.is_none() && steps.committed.is_none());
    assert_eq!(seed_result(&steps).unwrap(), Seeding { table_exists: false, rows: 0, seeded: false });

    conn.execute_batch(Creation::Baseline.statement()).unwrap();
    let steps = run_seed_steps(&conn);
    assert_eq!((steps.looked.clone(), steps.counted.clone(), steps.begun.clone(), steps.inserted, steps.rejected.clone(), steps.committed.clone()), (Ok(true), Some(Ok(0)), Some(Ok(())), 5, None, Some(Ok(()))));
    assert_eq!(seed_result(&steps).unwrap(), Seeding { table_exists: true, rows: 0, seeded: true });
    let steps = run_seed_steps(&conn);
    assert_eq!((steps.counted.clone(), steps.begun.clone(), steps.inserted), (Some(Ok(5)), None, 0));
    assert_eq!(seed_result(&steps).unwrap(), Seeding { table_exists: true, rows: 5, seeded: false });

    let conn = Connection::open_in_memory().unwrap();
    conn.execute_batch("CREATE TABLE tasks (id TEXT PRIMARY KEY);").unwrap();
    let steps = run_seed_steps(&conn);
    assert_eq!((steps.begun.clone(), steps.inserted, steps.committed.clone()), (Some(Ok(())), 0, None));
    assert!(steps.rejected.is_some());
    let error = seed_result(&steps).unwrap_err();
    assert_eq!(error.stage, InitStage::Seed);
    assert_eq!(Some(error.to_text()), steps.rejected);

    let conn = Connection::open_in_memory().unwrap();
    conn.execute_batch(Creation::Baseline.statement()).unwrap();
    conn.execute_batch("CREATE TRIGGER third BEFORE INSERT ON tasks WHEN (SELECT COUNT(*) FROM tasks) >= 2 BEGIN SELECT RAISE(ABORT, 'no more'); END;").unwrap();
    let steps = run_seed_steps(&conn);
    assert_eq!((steps.inserted, steps.committed.clone()), (2, None));
    assert!(steps.rejected.clone().unwrap().contains("no more"));
    assert!(seed_result(&steps).is_err());
    assert_eq!(count(&conn, "SELECT COUNT(*) FROM tasks"), 0);
    assert_eq!(seed_initial_data(&conn).unwrap_err().stage, InitStage::Seed);
    assert_eq!(count(&conn, "SELECT COUNT(*) FROM tasks"), 0);

    let made_up = SeedSteps { looked: Ok(true), counted: Some(Ok(0)), begun: Some(Ok(())), inserted: 5, rejected: None, committed: Some(Err("busy".to_string())) };
    assert_eq!(seed_result(&made_up).unwrap_err().to_text(), "busy");
    let made_up = SeedSteps { looked: Err("gone".to_string()), counted: None, begun: None, inserted: 0, rejected: None, committed: None };
    assert_eq!(seed_result(&made_up).unwrap_err().to_text(), "gone");
    let made_up = SeedSteps { looked: Ok(true), counted: Some(Ok(3)), begun: None, inserted: 0, rejected: None, committed: None };
    assert_eq!(seed_result(&made_up).unwrap(), Seeding { table_exists: true, rows: 3, seeded: false });
}

#[test]
fn steps_of_a_start() {
    let conn = Connection::open_in_memory().unwrap();
    let catalog = vec![unit("0002_bad.sql", "NOT SQL;"), unit("0001_init.sql", Creation::Baseline.statement())];
    let steps = run_migration_steps(&conn, &catalog);
    assert!(steps.ledger_ready.is_ok());
    assert!(matches!(&steps.listed, Some(Ok(listed)) if listed.is_empty()));
    assert!(matches!(&steps.units, Some(Err(failure)) if failure.unit == "0002_bad.sql" && failure.applied == names(&["0001_init.sql"])));
    assert!(steps.core_tables.is_none() && steps.reconciled.is_none() && steps.bootstrapped.is_none());
    assert_eq!(migration_result(steps).unwrap_err().stage, InitStage::Migration);

    let startup = start(&conn, &catalog);
    assert!(startup.migration.is_err());
    assert!(startup.seeding.is_none());
    assert_eq!(count(&conn, "SELECT COUNT(*) FROM tasks"), 0);
    assert_eq!(startup_result(startup).unwrap_err().stage, InitStage::Migration);
    assert_eq!(ledger(&conn), names(&["0001_init.sql"]));

    let good = vec![unit("0001_init.sql", "never run again")];
    let steps = run_migration_steps(&conn, &good);
    assert!(matches!(&steps.units, Some(Ok(applied)) if applied.is_empty()));
    assert!(matches!(&steps.core_tables, Some(Ok(found)) if found == &vec![true; 6]));
    assert!(matches!(&steps.reconciled, Some(Ok(done)) if done.repairs == vec![Repair::DefaultUser]));
    assert!(matches!(&steps.bootstrapped, Some(Ok(false))));
    let report = migration_result(steps).unwrap();
    assert_eq!(report.previously_applied, names(&["0001_init.sql"]));
    let startup = start(&conn, &good);
    assert!(matches!(&startup.seeding, Some(Ok(done)) if done.seeded));
    assert!(startup_result(startup).is_ok());
    assert_eq!(count(&conn, "SELECT COUNT(*) FROM tasks"), 5);

    let dir = TempDir::new().unwrap();
    let path = dir.path().join("todo.db");
    drop(Connection::open(&path).unwrap().execute_batch("CREATE TABLE tasks (id TEXT PRIMARY KEY, title TEXT NOT NULL, description TEXT, due_at INTEGER, created_at INTEGER NOT NULL, updated_at INTEGER NOT NULL, priority TEXT NOT NULL DEFAULT 'medium', completed_at INTEGER, project_id TEXT, order_index INTEGER DEFAULT 0, metadata TEXT);"));
    let error = match init_db(path.clone(), &vec![unit("0009_bad.sql", "NOT SQL;")]) {
        Ok(_) => panic!("a failed unit fails the start"),
        Err(e) => e,
    };
    assert_eq!(error.stage, InitStage::Migration);
    let conn = Connection::open(&path).unwrap();
    assert_eq!(count(&conn, "SELECT COUNT(*) FROM tasks"), 0);
    assert_eq!(count(&conn, "SELECT COUNT(*) FROM migrations"), 0);
}

#[test]
fn statements_of_the_startup() {
    assert!(ledger_creation().contains("name TEXT NOT NULL UNIQUE"));
    assert!(ledger_creation().starts_with("CREATE TABLE IF NOT EXISTS migrations"));
    assert_eq!(ledger_listing(), "SELECT name FROM migrations ORDER BY name");
    assert_eq!(record_statement(), "INSERT INTO migrations (name, applied_at) VALUES (?1, ?2)");
    assert_eq!(task_count_query(), "SELECT COUNT(*) FROM tasks");
    assert!(seed_statement().starts_with("INSERT INTO tasks (id, title, description, due_at, created_at, updated_at, priority, completed_at, project_id, order_index, metadata)"));
    assert_eq!(repair_statement(Repair::DefaultUser), "INSERT OR IGNORE INTO user_progress (id, total_xp, current_level, current_streak, longest_streak, created_at, updated_at) VALUES ('default', 0, 1, 0, 0, ?1, ?2)");
    assert_eq!(repair_statement(Repair::AddColumn(CriticalColumn::AttachmentSize)), "ALTER TABLE attachments ADD COLUMN size INTEGER");
    assert_eq!(repair_statement(Repair::Create(Creation::Badges)), Creation::Badges.statement());
    assert!(Creation::Badges.statement().contains("idx_badges_badge_type"));
    assert!(Creation::XpHistory.statement().contains("idx_xp_history_source"));
    assert!(Creation::Baseline.statement().contains("CREATE TABLE IF NOT EXISTS xp_history"));
    assert_eq!(default_user_parameters(9).len(), 2);
    assert!(any_yes(&vec![false, true]));
    assert!(!any_yes(&vec![false, false]));
    assert!(!any_yes(&Vec::new()));
    assert_eq!(repair_result(Repair::DefaultUser, Err("x".to_string())).unwrap_err().to_text(), "Failed to initialize user progress: x");
    assert!(repair_result(Repair::DefaultUser, Ok(())).is_ok());
    assert_eq!(core_table_list(), vec![CoreTable::Projects, CoreTable::Tasks, CoreTable::Settings, CoreTable::Subtasks, CoreTable::Attachments, CoreTable::TaskTemplates]);
}
