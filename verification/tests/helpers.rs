use rusqlite::Connection;
use todo_backend::attachments::attachment_parameters;
use todo_backend::clock::reading;
use todo_backend::transfer::count_project;
use todo_backend::transfer::count_task;
use todo_backend::transfer::export_from;
use todo_backend::transfer::export_listing;
use todo_backend::transfer::import_action;
use todo_backend::transfer::import_result;
use todo_backend::transfer::project_import_parameters;
use todo_backend::transfer::project_statement;
use todo_backend::transfer::setting_import_parameters;
use todo_backend::transfer::subtask_import_parameters;
use todo_backend::transfer::task_statement;
use todo_backend::transfer::ExportRows;
use todo_backend::transfer::Exported;
use todo_backend::transfer::ImportAction;
use todo_backend::transfer::ImportSummary;
use todo_backend::transfer::next_count;
use todo_backend::translation_service::description_to_translate;
use todo_backend::translation_service::Progress;
use todo_backend::translation_service::Step;
use todo_backend::pomodoro_service::session_parameters;
use todo_backend::pomodoro_service::streak_parameters;
use todo_backend::pomodoro_service::PomodoroSession;
use todo_backend::projects::new_project_parameters;
use todo_backend::projects::CreateProjectInput;
use todo_backend::subtasks::new_subtask_parameters;
use todo_backend::templates::new_template_parameters;
use todo_backend::templates::CreateTemplateInput;
use todo_backend::translation_service::translation_parameters;
use todo_backend::error::describe_error;
use todo_backend::error::error_mentions;
use todo_backend::error::looked_for;
use todo_backend::error::said;
use todo_backend::error::written;
use todo_backend::gamification::badge_types;
use todo_backend::gamification::new_badge;
use todo_backend::gamification::BadgeKind;
use todo_backend::ledger::record_parameters;
use todo_backend::ledger::MigrationRecord;
use todo_backend::notifications::reminder_candidate;
use todo_backend::notifications::reminder_parameters;
use todo_backend::notifications::schedule_facts;
use todo_backend::pomodoro_service::daily_from_rows;
use todo_backend::pomodoro_service::modes_from_rows;
use todo_backend::pomodoro_service::streak_record;
use todo_backend::pomodoro_service::totals_from;
use todo_backend::reconciler::failure_prefix;
use todo_backend::reconciler::inspect_table;
use todo_backend::reconciler::make_repairs;
use todo_backend::reconciler::table_exists;
use todo_backend::reconciler::Repair;
use todo_backend::rows::count_at;
use todo_backend::rows::count_of;
use todo_backend::rows::counted;
use todo_backend::rows::first_of;
use todo_backend::rows::first_row;
use todo_backend::rows::read_or;
use todo_backend::rows::single_row;
use todo_backend::rows::flag_of;
use todo_backend::schema::CoreTable;
use todo_backend::schema::Creation;
use todo_backend::schema::CriticalColumn;
use todo_backend::settings::settings_map;
use todo_backend::settings::Setting;
use todo_backend::sqlite::Cell;
use todo_backend::sqlite::SqlValue;
use todo_backend::stats_service::completion_stats_from_rows;
use todo_backend::stats_service::priority_distribution_from_rows;
use todo_backend::stats_service::project_counts_from_rows;
use todo_backend::tasks::next_instance_parameters;
use todo_backend::tasks::recurring_from_row;
use todo_backend::tasks::table_known;

fn shown(values: &[SqlValue]) -> Vec<String> {
    values
        .iter()
        .map(|v| match v {
            SqlValue::Null => "NULL".to_string(),
            SqlValue::Integer(i) => i.to_string(),
            SqlValue::Text(s) => format!("'{}'", s),
        })
        .collect()
}

fn text(s: &str) -> Cell {
    Cell::Text(s.to_string())
}

#[test]
fn first_row_and_counts() {
    assert!(first_of(Vec::new()).is_none());
    let first = first_of(vec![vec![Cell::Integer(3)], vec![Cell::Integer(4)]]).unwrap();
    assert!(matches!(first[0], Cell::Integer(3)));
    assert_eq!(first.len(), 1);
    let row = vec![Cell::Integer(7), Cell::Null, text("x")];
    assert_eq!(count_at(&row, 0), 7);
    assert_eq!(count_at(&row, 1), 0);
    assert_eq!(count_at(&row, 2), 0);
    assert_eq!(count_at(&row, 9), 0);
    assert_eq!(count_of(&Some(vec![Cell::Integer(5)])), 5);
    assert_eq!(count_of(&Some(vec![Cell::Null])), 0);
    assert_eq!(count_of(&Some(Vec::new())), 0);
    assert_eq!(count_of(&None), 0);
    assert!(counted(1));
    assert!(counted(i64::MAX));
    assert!(!counted(0));
    assert!(!counted(-1));
    assert!(flag_of(&Some(vec![Cell::Integer(1)])));
    assert!(flag_of(&Some(vec![Cell::Integer(-3)])));
    assert!(!flag_of(&Some(vec![Cell::Integer(0)])));
    assert!(!flag_of(&Some(vec![text("1")])));
    assert!(!flag_of(&None));
}

#[test]
fn first_row_asks_the_database() {
    let conn = Connection::open_in_memory().unwrap();
    conn.execute_batch("CREATE TABLE t (a INTEGER, b TEXT); INSERT INTO t VALUES (1, 'x'), (2, NULL);").unwrap();
    let none: Vec<SqlValue> = Vec::new();
    let row = first_row(&conn, "SELECT a, b FROM t ORDER BY a DESC", &none).unwrap().unwrap();
    assert!(matches!(row[0], Cell::Integer(2)));
    assert!(matches!(row[1], Cell::Null));
    let row = first_row(&conn, "SELECT b FROM t WHERE a = ?1", &vec![SqlValue::Integer(1)]).unwrap().unwrap();
    assert!(matches!(&row[0], Cell::Text(s) if s == "x"));
    assert!(first_row(&conn, "SELECT a FROM t WHERE a = ?1", &vec![SqlValue::Integer(9)]).unwrap().is_none());
    assert!(first_row(&conn, "SELECT a FROM missing", &none).is_err());
    assert!(table_known(&conn, "SELECT COUNT(*) FROM sqlite_master WHERE type='table' AND name='t'"));
    assert!(!table_known(&conn, "SELECT COUNT(*) FROM sqlite_master WHERE type='table' AND name='u'"));
    assert!(!table_known(&conn, "SELECT b FROM t"));
    assert!(!table_known(&conn, "not sql"));
    assert!(!table_exists(&conn, CoreTable::Tasks).unwrap());
    assert_eq!(inspect_table(&conn, CoreTable::Tasks).unwrap(), None);
    conn.execute_batch("CREATE TABLE tasks (id TEXT, title TEXT);").unwrap();
    assert!(table_exists(&conn, CoreTable::Tasks).unwrap());
    assert_eq!(inspect_table(&conn, CoreTable::Tasks).unwrap(), Some(vec!["id".to_string(), "title".to_string()]));
}

#[test]
fn clock_readings() {
    assert_eq!(reading(None), 0);
    assert_eq!(reading(Some(0)), 0);
    assert_eq!(reading(Some(1_700_000_000)), 1_700_000_000);
    assert_eq!(reading(Some(i64::MAX as u64)), i64::MAX);
    assert_eq!(reading(Some(i64::MAX as u64 + 1)), i64::MAX);
    assert_eq!(reading(Some(u64::MAX)), i64::MAX);
}

#[test]
fn outcomes_of_writes() {
    assert_eq!(written(Ok(0), "Failed: "), Ok(()));
    assert_eq!(written(Ok(5), "Failed: "), Ok(()));
    assert_eq!(written(Err(rusqlite::Error::QueryReturnedNoRows), "Failed: "), Err("Failed: Query returned no rows".to_string()));
    assert_eq!(describe_error("", &rusqlite::Error::QueryReturnedNoRows), "Query returned no rows");
    assert_eq!(said(Ok(())), Ok(()));
    assert_eq!(said(Err(rusqlite::Error::QueryReturnedNoRows)), Err("Query returned no rows".to_string()));
    assert_eq!(looked_for(Ok(3)), Ok(3));
    assert_eq!(looked_for::<i64>(Err(rusqlite::Error::QueryReturnedNoRows)), Err("Query returned no rows".to_string()));
    assert!(error_mentions(&rusqlite::Error::QueryReturnedNoRows, ""));
    assert!(error_mentions(&rusqlite::Error::QueryReturnedNoRows, "no rows"));
    assert!(!error_mentions(&rusqlite::Error::QueryReturnedNoRows, "UNIQUE"));
}

#[test]
fn ledger_row_values() {
    let params = record_parameters(MigrationRecord { name: "0001_init.sql".to_string(), applied_at: 42 });
    assert_eq!(shown(&params), vec!["'0001_init.sql'", "42"]);
}

#[test]
fn repair_failures_are_named() {
    assert_eq!(failure_prefix(Repair::AddColumn(CriticalColumn::AttachmentSize)), "");
    assert_eq!(failure_prefix(Repair::AddColumn(CriticalColumn::RecurrenceType)), "Failed to add recurrence_type column: ");
    assert_eq!(failure_prefix(Repair::AddColumn(CriticalColumn::RecurrenceInterval)), "Failed to add recurrence_interval column: ");
    assert_eq!(failure_prefix(Repair::AddColumn(CriticalColumn::RecurrenceParentId)), "Failed to add recurrence_parent_id column: ");
    assert_eq!(failure_prefix(Repair::AddColumn(CriticalColumn::ReminderMinutesBefore)), "Failed to add reminder_minutes_before column: ");
    assert_eq!(failure_prefix(Repair::AddColumn(CriticalColumn::NotificationRepeat)), "Failed to add notification_repeat column: ");
    assert_eq!(failure_prefix(Repair::Create(Creation::TaskTemplates)), "Failed to create task_templates table: ");
    assert_eq!(failure_prefix(Repair::Create(Creation::UserProgress)), "Failed to create gamification tables: ");
    assert_eq!(failure_prefix(Repair::Create(Creation::Badges)), "Failed to create gamification tables: ");
    assert_eq!(failure_prefix(Repair::Create(Creation::XpHistory)), "Failed to create gamification tables: ");
    assert_eq!(failure_prefix(Repair::DefaultUser), "Failed to initialize user progress: ");
    assert_eq!(failure_prefix(Repair::Create(Creation::Attachments)), "");
    assert_eq!(failure_prefix(Repair::Create(Creation::NotificationSchedule)), "");
    assert_eq!(failure_prefix(Repair::Create(Creation::Baseline)), "");

    let conn = Connection::open_in_memory().unwrap();
    conn.execute_batch("PRAGMA query_only = ON;").unwrap();
    make_repairs(&conn, &Vec::new()).unwrap();
    let error = make_repairs(&conn, &vec![Repair::Create(Creation::TaskTemplates)]).unwrap_err();
    assert!(error.to_text().starts_with("Failed to create task_templates table: "));
    let error = make_repairs(&conn, &vec![Repair::AddColumn(CriticalColumn::RecurrenceType)]).unwrap_err();
    assert!(error.to_text().starts_with("Failed to add recurrence_type column: "));
}

#[test]
fn badges_as_they_are_stored() {
    assert_eq!(BadgeKind::FirstTask.insert_statement(), "INSERT INTO badges (id, user_id, badge_type, earned_at, metadata) VALUES (?1, 'default', 'first_task', ?2, ?3)");
    assert_eq!(BadgeKind::TaskMaster100.insert_statement(), "INSERT INTO badges (id, user_id, badge_type, earned_at, metadata) VALUES (?1, 'default', 'task_master_100', ?2, ?3)");
    assert_eq!(BadgeKind::WeekWarrior.insert_statement(), "INSERT INTO badges (id, user_id, badge_type, earned_at, metadata) VALUES (?1, 'default', 'week_warrior', ?2, ?3)");
    assert_eq!(BadgeKind::Level10.insert_statement(), "INSERT INTO badges (id, user_id, badge_type, earned_at, metadata) VALUES (?1, 'default', 'level_10', ?2, ?3)");
    let badge = new_badge(BadgeKind::WeekWarrior, "b1".to_string(), 99);
    assert_eq!((badge.id.as_str(), badge.user_id.as_str(), badge.badge_type.as_str(), badge.earned_at), ("b1", "default", "week_warrior", 99));
    assert_eq!(badge.metadata, Some("{\"streak\":7}".to_string()));
    let other = new_badge(BadgeKind::FirstTask, "b2".to_string(), 100);
    assert_eq!(badge_types(&vec![badge, other]), vec!["week_warrior".to_string(), "first_task".to_string()]);
    assert!(badge_types(&Vec::new()).is_empty());
}

#[test]
fn reminder_rows_and_values() {
    assert_eq!(schedule_facts(&vec![Cell::Integer(500), Cell::Integer(1)]), Some((500, true)));
    assert_eq!(schedule_facts(&vec![Cell::Integer(500), Cell::Integer(0)]), Some((500, false)));
    assert_eq!(schedule_facts(&vec![Cell::Integer(500), Cell::Integer(2)]), Some((500, false)));
    assert_eq!(schedule_facts(&vec![Cell::Null, Cell::Integer(1)]), None);
    assert_eq!(schedule_facts(&vec![Cell::Integer(500), Cell::Null]), None);
    assert_eq!(schedule_facts(&vec![text("500"), Cell::Integer(1)]), None);
    assert_eq!(schedule_facts(&vec![Cell::Integer(500)]), None);
    assert_eq!(shown(&reminder_parameters("n1".to_string(), "t1", 77, 5)), vec!["'n1'", "'t1'", "77", "NULL", "5"]);
    assert_eq!(reminder_candidate(&vec![text("t1"), Cell::Integer(9), Cell::Integer(15)]), Some(("t1".to_string(), Some(15))));
    assert_eq!(reminder_candidate(&vec![text("t1"), Cell::Integer(9), Cell::Null]), Some(("t1".to_string(), None)));
    assert_eq!(reminder_candidate(&vec![text("t1"), Cell::Null, Cell::Integer(15)]), None);
    assert_eq!(reminder_candidate(&vec![Cell::Null, Cell::Integer(9), Cell::Integer(15)]), None);
    assert_eq!(reminder_candidate(&vec![text("t1"), Cell::Integer(9), text("soon")]), None);
}

#[test]
fn pomodoro_rows() {
    assert_eq!(streak_record(&vec![Cell::Integer(2), Cell::Integer(5), Cell::Integer(900)]), Some((2, 5, Some(900))));
    assert_eq!(streak_record(&vec![Cell::Integer(2), Cell::Integer(5), Cell::Null]), Some((2, 5, None)));
    assert_eq!(streak_record(&vec![Cell::Null, Cell::Integer(5), Cell::Null]), None);
    assert_eq!(streak_record(&vec![Cell::Integer(2), Cell::Integer(1 << 40), Cell::Null]), None);
    assert_eq!(streak_record(&vec![Cell::Integer(2), Cell::Integer(5), text("x")]), None);
    let modes = modes_from_rows(&vec![vec![text("pomodoro"), Cell::Integer(2), Cell::Integer(1560)], vec![text("shortBreak"), Cell::Integer(1), Cell::Integer(299)]]).unwrap();
    assert_eq!(modes.iter().map(|m| (m.mode.as_str(), m.count, m.total_duration_minutes)).collect::<Vec<_>>(), vec![("pomodoro", 2, 26), ("shortBreak", 1, 4)]);
    assert_eq!(modes_from_rows(&vec![vec![text("pomodoro"), Cell::Integer(2), Cell::Null]]).unwrap_err(), "Invalid column type");
    assert!(modes_from_rows(&Vec::new()).unwrap().is_empty());
    let totals = totals_from(&vec![Cell::Integer(3), Cell::Integer(1859), Cell::Integer(2)], modes);
    assert_eq!((totals.total_sessions, totals.total_duration_minutes, totals.completed_sessions, totals.sessions_by_mode.len()), (3, 30, 2, 2));
    let totals = totals_from(&vec![Cell::Integer(0), Cell::Null, Cell::Null], Vec::new());
    assert_eq!((totals.total_sessions, totals.total_duration_minutes, totals.completed_sessions, totals.sessions_by_mode.len()), (0, 0, 0, 0));
    let days = daily_from_rows(&vec![vec![text("1970-01-11"), Cell::Integer(1), Cell::Integer(25), Cell::Integer(1)]]).unwrap();
    assert_eq!((days[0].date.as_str(), days[0].session_count, days[0].total_duration_minutes, days[0].completed_count), ("1970-01-11", 1, 25, 1));
    assert_eq!(daily_from_rows(&vec![vec![text("1970-01-11"), Cell::Integer(1), Cell::Real, Cell::Integer(1)]]).unwrap_err(), "Invalid column type");
}

#[test]
fn statistics_rows() {
    let rows = vec![vec![text("2024-01-01"), Cell::Integer(3)], vec![text("2024-01-02"), Cell::Integer(1)]];
    let stats = completion_stats_from_rows(&rows).unwrap();
    assert_eq!(stats.iter().map(|s| (s.date.as_str(), s.count)).collect::<Vec<_>>(), vec![("2024-01-01", 3), ("2024-01-02", 1)]);
    let by_priority = priority_distribution_from_rows(&rows).unwrap();
    assert_eq!(by_priority.iter().map(|s| (s.priority.as_str(), s.count)).collect::<Vec<_>>(), vec![("2024-01-01", 3), ("2024-01-02", 1)]);
    let bad = vec![vec![text("high"), Cell::Integer(3)], vec![Cell::Null, Cell::Integer(1)]];
    assert_eq!(completion_stats_from_rows(&bad).unwrap_err(), "Row parsing error: Invalid column type");
    assert_eq!(priority_distribution_from_rows(&bad).unwrap_err(), "Row parsing error: Invalid column type");
    let counts = project_counts_from_rows(&vec![vec![text("p1"), text("Home"), Cell::Integer(4), Cell::Integer(1)], vec![Cell::Null, Cell::Null, Cell::Integer(2), Cell::Integer(0)]]).unwrap();
    assert_eq!(counts.iter().map(|c| (c.project_id.clone(), c.project_name.clone(), c.total_tasks, c.completed_tasks)).collect::<Vec<_>>(), vec![(Some("p1".to_string()), Some("Home".to_string()), 4, 1), (None, None, 2, 0)]);
    assert_eq!(project_counts_from_rows(&vec![vec![text("p1"), text("Home"), Cell::Null, Cell::Integer(1)]]).unwrap_err(), "Row parsing error: Invalid column type");
}

#[test]
fn next_instance_of_a_recurring_task() {
    let row = vec![text("Water"), Cell::Null, Cell::Integer(1000), text("low"), text("p1"), Cell::Integer(3)];
    let source = recurring_from_row(&row).unwrap();
    assert_eq!((source.title.as_str(), source.description.clone(), source.due_date, source.priority.as_str(), source.project_id.clone(), source.order_index), ("Water", None, Some(1000), "low", Some("p1".to_string()), 3));
    let params = next_instance_parameters("new".to_string(), &source, "daily", 2, "parent", 50);
    assert_eq!(shown(&params), vec!["'new'", "'Water'", "NULL", "173800", "50", "50", "'low'", "NULL", "'p1'", "3", "NULL", "'daily'", "2", "'parent'"]);
    let mut undated = source.clone();
    undated.due_date = None;
    assert_eq!(shown(&next_instance_parameters("new".to_string(), &undated, "weekly", 1, "parent", 50))[3], "NULL");
    let mut broken = row.clone();
    broken[5] = Cell::Null;
    assert!(recurring_from_row(&broken).is_none());
    broken = row.clone();
    broken[0] = Cell::Null;
    assert!(recurring_from_row(&broken).is_none());
    assert!(recurring_from_row(&row[..5].to_vec()).is_none());
}

#[test]
fn settings_become_a_map() {
    let map = settings_map(vec![
        Setting { key: "a".to_string(), value: "1".to_string() },
        Setting { key: "b".to_string(), value: "2".to_string() },
        Setting { key: "a".to_string(), value: "3".to_string() },
    ]);
    assert_eq!(map.len(), 2);
    assert_eq!(map.get("a"), Some(&"3".to_string()));
    assert_eq!(map.get("b"), Some(&"2".to_string()));
    assert!(settings_map(Vec::new()).is_empty());
}

#[test]
fn values_of_new_rows() {
    let project = CreateProjectInput { name: "Home".to_string(), color: None };
    assert_eq!(shown(&new_project_parameters("p1", &project, 7)), vec!["'p1'", "'Home'", "NULL", "7", "7"]);
    let project = CreateProjectInput { name: "Work".to_string(), color: Some("#fff".to_string()) };
    assert_eq!(shown(&new_project_parameters("p2", &project, 8)), vec!["'p2'", "'Work'", "'#fff'", "8", "8"]);
    assert_eq!(shown(&new_subtask_parameters("s1", "t1".to_string(), "Buy".to_string())), vec!["'s1'", "'t1'", "'Buy'", "0"]);
    let template = CreateTemplateInput {
        name: "Weekly".to_string(),
        title: "Review".to_string(),
        description: Some("all".to_string()),
        priority: "high".to_string(),
        project_id: None,
        recurrence_type: Some("weekly".to_string()),
    };
    assert_eq!(shown(&new_template_parameters("x", &template, 9)), vec!["'x'", "'Weekly'", "'Review'", "'all'", "'high'", "NULL", "9", "9"]);
    let session = PomodoroSession {
        id: "s".to_string(),
        user_id: "default".to_string(),
        task_id: Some("t".to_string()),
        started_at: 1,
        completed_at: 2,
        duration_seconds: 3,
        mode: "pomodoro".to_string(),
        was_completed: true,
        task_completed: false,
        created_at: 4,
    };
    assert_eq!(shown(&session_parameters(&session)), vec!["'s'", "'default'", "'t'", "1", "2", "3", "'pomodoro'", "1", "0", "4"]);
    assert_eq!(shown(&streak_parameters(2, 5, 100, 200, 300)), vec!["'default'", "'default'", "2", "5", "100", "200", "300"]);
    let mime = Some("image/png".to_string());
    assert_eq!(
        shown(&attachment_parameters("a", "t".to_string(), Some("cat.png".to_string()), "attachments/t/u.png".to_string(), &mime, Some(12), 5)),
        vec!["'a'", "'t'", "'cat.png'", "'attachments/t/u.png'", "'image/png'", "12", "5"]
    );
    assert_eq!(
        shown(&attachment_parameters("a", "t".to_string(), None, "p".to_string(), &None, None, 5)),
        vec!["'a'", "'t'", "'unknown'", "'p'", "NULL", "NULL", "5"]
    );
    assert_eq!(
        shown(&translation_parameters("i".to_string(), "abc", "en", "ja", "xyz", "title", Some("t1"), true, 6)),
        vec!["'i'", "'ba7816bf8f01cfea414140de5dae2223b00361a396177a9cb410ff61f20015ad'", "'abc'", "'en'", "'ja'", "'xyz'", "'title'", "'t1'", "1", "6", "6"]
    );
    assert_eq!(shown(&translation_parameters("i".to_string(), "abc", "en", "ja", "xyz", "title", None, false, 6))[7..9], ["NULL".to_string(), "0".to_string()]);
}

#[test]
fn lookups_that_must_find_a_row() {
    let row = single_row(Ok(Some(vec![Cell::Integer(1)])), "Not found: ").unwrap();
    assert!(matches!(row[0], Cell::Integer(1)));
    assert_eq!(single_row(Ok(None), "Not found: ").unwrap_err(), "Not found: Query returned no rows");
    assert_eq!(single_row(Err(rusqlite::Error::InvalidQuery), "Not found: ").unwrap_err(), format!("Not found: {}", rusqlite::Error::InvalidQuery));
    assert_eq!(read_or(Some(5), "Bad: "), Ok(5));
    assert_eq!(read_or(None::<i64>, "Bad: "), Err("Bad: Invalid column type".to_string()));
    assert_eq!(read_or(None::<String>, ""), Err("Invalid column type".to_string()));
}

#[test]
fn export_of_row_lists() {
    let task = |id: &str, title: &str, position: i64| {
        vec![
            text(id), text(title), Cell::Null, Cell::Null, Cell::Integer(10), Cell::Integer(11), text("low"),
            Cell::Integer(12), Cell::Null, Cell::Integer(position), Cell::Null, text("weekly"), Cell::Integer(2), Cell::Null,
        ]
    };
    let rows = ExportRows {
        tasks: vec![task("t2", "Second", 1), task("t1", "First", 2)],
        projects: vec![vec![text("p"), text("Home"), Cell::Null, Cell::Integer(1), Cell::Integer(2)]],
        settings: vec![vec![text("theme"), text("dark")], vec![text("theme"), text("light")]],
        subtasks: vec![vec![text("s"), text("t1"), text("Step"), Cell::Integer(1)]],
        attachments: Vec::new(),
    };
    let export = export_from(&rows, 77).unwrap();
    assert_eq!(export.exported_at, 77);
    assert_eq!(export.tasks.iter().map(|t| (t.id.as_str(), t.title.as_str(), t.order_index, t.completed, t.recurrence_type.as_str(), t.recurrence_interval)).collect::<Vec<_>>(), vec![("t2", "Second", 1, true, "weekly", 2), ("t1", "First", 2, true, "weekly", 2)]);
    assert!(export.tasks.iter().all(|t| t.tags.is_none()));
    assert_eq!(export.projects.len(), 1);
    assert_eq!(export.projects[0].name, "Home");
    assert_eq!(export.subtasks[0].completed, true);
    assert!(export.attachments.is_empty());
    assert_eq!(export.settings.get("theme"), Some(&"light".to_string()));

    let mut broken = rows;
    broken.subtasks.push(vec![text("s"), Cell::Null, text("Step"), Cell::Integer(1)]);
    assert_eq!(export_from(&broken, 77).unwrap_err(), "Row parsing error: Invalid column type");
    let empty = ExportRows { tasks: Vec::new(), projects: Vec::new(), settings: Vec::new(), subtasks: Vec::new(), attachments: Vec::new() };
    let export = export_from(&empty, 0).unwrap();
    assert!(export.tasks.is_empty() && export.settings.is_empty());
    assert!(export_listing(Exported::Tasks).ends_with("FROM tasks ORDER BY order_index, created_at"));
    assert_eq!(export_listing(Exported::Projects), "SELECT id, name, color, created_at, updated_at FROM projects ORDER BY created_at");
    assert_eq!(export_listing(Exported::Settings), "SELECT key, value FROM settings");
    assert_eq!(export_listing(Exported::Subtasks), "SELECT id, task_id, title, completed FROM subtasks ORDER BY id");
    assert!(export_listing(Exported::Attachments).ends_with("FROM attachments ORDER BY created_at"));
}

#[test]
fn import_decisions() {
    assert_eq!(import_action(true), ImportAction::Update);
    assert_eq!(import_action(false), ImportAction::Insert);
    assert_eq!(project_statement(ImportAction::Update), "UPDATE projects SET name = ?1, color = ?2, updated_at = ?3 WHERE id = ?4");
    assert!(project_statement(ImportAction::Insert).starts_with("INSERT INTO projects"));
    assert!(task_statement(ImportAction::Update).starts_with("UPDATE tasks SET title = ?1"));
    assert!(task_statement(ImportAction::Insert).starts_with("INSERT INTO tasks"));
    let summary = ImportSummary { tasks_added: 1, tasks_updated: 2, projects_added: 3, projects_updated: 4 };
    let counted = count_project(summary, ImportAction::Update);
    assert_eq!((counted.tasks_added, counted.tasks_updated, counted.projects_added, counted.projects_updated), (1, 2, 3, 5));
    let counted = count_project(counted, ImportAction::Insert);
    assert_eq!((counted.projects_added, counted.projects_updated), (4, 5));
    let counted = count_task(counted, ImportAction::Insert);
    let counted = count_task(counted, ImportAction::Update);
    assert_eq!((counted.tasks_added, counted.tasks_updated, counted.projects_added, counted.projects_updated), (2, 3, 4, 5));
    let done = import_result(counted, Ok(())).unwrap();
    assert_eq!(done.tasks_updated, 3);
    let summary = ImportSummary { tasks_added: 0, tasks_updated: 0, projects_added: 0, projects_updated: 0 };
    assert_eq!(import_result(summary, Err("busy".to_string())).unwrap_err(), "Failed to commit transaction: busy");
    let project = todo_backend::projects::Project { id: "p".to_string(), name: "Home".to_string(), color: None, created_at: 5, updated_at: 6 };
    assert_eq!(shown(&project_import_parameters(ImportAction::Update, &project, 9)), vec!["'Home'", "NULL", "9", "'p'"]);
    assert_eq!(shown(&project_import_parameters(ImportAction::Insert, &project, 9)), vec!["'p'", "'Home'", "NULL", "5", "6"]);
    let subtask = todo_backend::subtasks::Subtask { id: "s".to_string(), task_id: "t".to_string(), title: "Step".to_string(), completed: true };
    assert_eq!(shown(&subtask_import_parameters(&subtask)), vec!["'s'", "'t'", "'Step'", "1"]);
    assert_eq!(shown(&setting_import_parameters(&Setting { key: "k".to_string(), value: "v".to_string() })), vec!["'k'", "'v'"]);
}

#[test]
fn description_is_translated_unless_blank() {
    let progress = Progress::after_first_look(None);
    assert_eq!(progress.next_step(), Step::DetectLanguage);
    assert_eq!(progress.outcome(), None);
    let progress = Progress::after_first_look(Some("hola".to_string()));
    assert_eq!(progress.next_step(), Step::Finish);
    assert_eq!(progress.outcome(), Some("hola".to_string()));
    assert_eq!(next_count(4), 5);
    assert_eq!(next_count(usize::MAX), usize::MAX);
    assert_eq!(description_to_translate(&Some("Buy milk".to_string())), Some("Buy milk".to_string()));
    assert_eq!(description_to_translate(&Some("  x ".to_string())), Some("  x ".to_string()));
    assert_eq!(description_to_translate(&Some(String::new())), None);
    assert_eq!(description_to_translate(&Some(" \t\n".to_string())), None);
    assert_eq!(description_to_translate(&None), None);
}
