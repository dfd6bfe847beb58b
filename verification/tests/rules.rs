use todo_backend::gamification::advance_streak;
use todo_backend::gamification::calculate_current_xp;
use todo_backend::gamification::calculate_level;
use todo_backend::gamification::calculate_xp_to_next_level;
use todo_backend::gamification::completion_xp;
use todo_backend::gamification::day_of;
use todo_backend::gamification::default_progress;
use todo_backend::gamification::plan_badges;
use todo_backend::gamification::standing_after;
use todo_backend::gamification::BadgeKind;
use todo_backend::notifications::reminder_message;
use todo_backend::notifications::reminder_times;
use todo_backend::notifications::snooze_until;
use todo_backend::pomodoro_service::day_index;
use todo_backend::pomodoro_service::minutes_of;
use todo_backend::pomodoro_service::next_streak;
use todo_backend::pomodoro_service::period_query;
use todo_backend::rows::get_flag;
use todo_backend::rows::get_i32;
use todo_backend::rows::get_i64;
use todo_backend::rows::get_opt_i32;
use todo_backend::rows::get_opt_i64;
use todo_backend::rows::get_opt_text;
use todo_backend::rows::get_text;
use todo_backend::numbers::shift;
use todo_backend::sqlite::Cell;
use todo_backend::sqlite::SqlValue;
use todo_backend::statement::update_statement;
use todo_backend::statement::Assignment;
use todo_backend::stats_service::window_start;
use todo_backend::tags::normalize;
use todo_backend::tags::suggestion_pattern;
use todo_backend::tags::tasks_by_tags_query;
use todo_backend::tasks::next_due_date;
use todo_backend::tasks::plan_toggle;
use todo_backend::tasks::reminders_affected;
use todo_backend::tasks::task_from_row;
use todo_backend::tasks::task_query;
use todo_backend::tasks::task_update;
use todo_backend::tasks::TaskFilter;
use todo_backend::tasks::UpdateTaskInput;
use todo_backend::text::contains_name;
use todo_backend::text::join;
use todo_backend::translation_service::choose_api_key;
use todo_backend::translation_service::detect_language;
use todo_backend::translation_service::detect_language_locally;
use todo_backend::translation_service::hash_text;
use todo_backend::translation_service::is_blank;
use todo_backend::translation_service::remote_detection_wanted;
use todo_backend::translation_service::source_text;
use todo_backend::translation_service::translation_route;
use todo_backend::translation_service::Progress;
use todo_backend::translation_service::Route;
use todo_backend::translation_service::Step;

fn shown(values: &[SqlValue]) -> Vec<String> {
    values
        .iter()
        .map(|v| match v {
            SqlValue::Null => "NULL".to_string(),
            SqlValue::Integer(i) => i.to_string(),
            SqlValue::Text(s) => format!("'{}'", s),
        })
        .collect()
}

#[test]
fn level_is_one_more_than_the_root_of_a_hundredth() {
    assert_eq!(calculate_level(-5), 1);
    assert_eq!(calculate_level(0), 1);
    assert_eq!(calculate_level(1), 1);
    assert_eq!(calculate_level(99), 1);
    assert_eq!(calculate_level(100), 2);
    assert_eq!(calculate_level(399), 2);
    assert_eq!(calculate_level(400), 3);
    assert_eq!(calculate_level(8099), 9);
    assert_eq!(calculate_level(8100), 10);
    assert_eq!(calculate_level(1_000_000), 101);
    assert_eq!(calculate_level(i64::MAX), 303_700_050);
    for xp in 1..20_000i64 {
        let level = calculate_level(xp) as i64;
        assert!((level - 1) * (level - 1) <= xp / 100 && xp / 100 < level * level, "{}", xp);
    }
}

#[test]
fn xp_of_a_level_is_a_hundred_times_its_square() {
    assert_eq!(calculate_xp_to_next_level(1), 100);
    assert_eq!(calculate_xp_to_next_level(2), 400);
    assert_eq!(calculate_xp_to_next_level(10), 10_000);
    assert_eq!(calculate_xp_to_next_level(0), 0);
    assert_eq!(calculate_xp_to_next_level(-3), 900);
    assert_eq!(calculate_xp_to_next_level(303_700_049), 100 * 303_700_049i64 * 303_700_049i64);
    assert_eq!(calculate_xp_to_next_level(303_700_050), i64::MAX);
    assert_eq!(calculate_xp_to_next_level(i32::MAX), i64::MAX);
}

#[test]
fn current_xp_is_the_total_less_the_levels_below() {
    assert_eq!(calculate_current_xp(250, 1), 250);
    assert_eq!(calculate_current_xp(250, 2), 150);
    assert_eq!(calculate_current_xp(250, 3), -250);
    assert_eq!(calculate_current_xp(1000, 4), 1000 - 100 - 400 - 900);
    assert_eq!(calculate_current_xp(70, 0), 70);
    assert_eq!(calculate_current_xp(70, -4), 70);
    assert_eq!(calculate_current_xp(0, 3000), -(100 * (2999i64 * 3000 * 5999 / 6)));
}

#[test]
fn standing_after_a_grant() {
    let r = standing_after(90, 1, 25, true);
    assert_eq!((r.total_xp, r.new_level, r.level_up), (115, 2, true));
    assert_eq!(r.xp_to_next_level, 400);
    assert_eq!(r.current_xp, 15);
    let r = standing_after(115, 2, 10, true);
    assert_eq!((r.total_xp, r.new_level, r.level_up, r.current_xp), (125, 2, false, 25));
    let r = standing_after(115, 2, -25, false);
    assert_eq!((r.total_xp, r.new_level, r.level_up, r.current_xp), (90, 1, false, 90));
    let r = standing_after(10, 1, -25, false);
    assert_eq!((r.total_xp, r.new_level, r.xp_to_next_level), (0, 1, 100));
    let r = standing_after(90, 1, 25, false);
    assert_eq!((r.new_level, r.level_up), (2, false));
    let r = standing_after(i64::MAX, 5, 50, true);
    assert_eq!(r.total_xp, i64::MAX);
}

#[test]
fn xp_for_a_completion_goes_by_priority() {
    assert_eq!(completion_xp("low"), 10);
    assert_eq!(completion_xp("medium"), 25);
    assert_eq!(completion_xp("high"), 50);
    assert_eq!(completion_xp("urgent"), 25);
    assert_eq!(completion_xp(""), 25);
    assert_eq!(completion_xp("High"), 25);
}

#[test]
fn day_starts_round_towards_the_epoch() {
    assert_eq!(day_of(0), 0);
    assert_eq!(day_of(86399), 0);
    assert_eq!(day_of(86400), 86400);
    assert_eq!(day_of(1_700_000_000), 1_699_920_000);
    assert_eq!(day_of(-1), 0);
    assert_eq!(day_of(-86400), -86400);
    assert_eq!(day_of(-86401), -86400);
    assert_eq!(day_of(i64::MIN), (i64::MIN / 86400) * 86400);
    assert_eq!(day_index(172_799), 1);
    assert_eq!(day_index(-1), 0);
    assert_eq!(day_index(-86_400), -1);
}

#[test]
fn streak_follows_the_days() {
    let day = 86400;
    let today = 100 * day;
    let mut p = default_progress(5);
    p.current_streak = 3;
    p.longest_streak = 3;
    p.last_completion_date = Some(99 * day);
    let r = advance_streak(p.clone(), today + 17, true);
    assert_eq!((r.current_streak, r.longest_streak, r.last_completion_date), (4, 4, Some(today)));
    let r = advance_streak(p.clone(), today + 17, false);
    assert_eq!((r.current_streak, r.longest_streak, r.last_completion_date), (3, 3, Some(99 * day)));
    p.last_completion_date = Some(today + 5);
    let r = advance_streak(p.clone(), today + 17, true);
    assert_eq!((r.current_streak, r.longest_streak, r.last_completion_date), (3, 3, Some(today)));
    p.last_completion_date = Some(90 * day);
    p.longest_streak = 9;
    let r = advance_streak(p.clone(), today + 17, true);
    assert_eq!((r.current_streak, r.longest_streak, r.last_completion_date), (1, 9, Some(today)));
    p.last_completion_date = None;
    let r = advance_streak(p.clone(), today, true);
    assert_eq!((r.current_streak, r.longest_streak), (1, 9));
    p.current_streak = i32::MAX;
    p.last_completion_date = Some(99 * day);
    let r = advance_streak(p.clone(), today, true);
    assert_eq!((r.current_streak, r.longest_streak), (i32::MAX, i32::MAX));
    assert_eq!((r.id.as_str(), r.total_xp, r.current_level, r.created_at, r.updated_at), ("default", 0, 1, 5, 5));
}

#[test]
fn badges_are_awarded_once_and_in_order() {
    let none: Vec<String> = Vec::new();
    assert!(plan_badges(0, 0, 1, &none).is_empty());
    assert_eq!(plan_badges(1, 0, 1, &none), vec![BadgeKind::FirstTask]);
    assert_eq!(plan_badges(100, 7, 10, &none), vec![BadgeKind::FirstTask, BadgeKind::TaskMaster100, BadgeKind::WeekWarrior, BadgeKind::Level10]);
    assert_eq!(plan_badges(99, 8, 11, &none), vec![BadgeKind::FirstTask]);
    let held = vec!["first_task".to_string(), "week_warrior".to_string()];
    assert_eq!(plan_badges(100, 7, 10, &held), vec![BadgeKind::TaskMaster100, BadgeKind::Level10]);
    assert_eq!(BadgeKind::FirstTask.name(), "first_task");
    assert_eq!(BadgeKind::TaskMaster100.name(), "task_master_100");
    assert_eq!(BadgeKind::WeekWarrior.name(), "week_warrior");
    assert_eq!(BadgeKind::Level10.name(), "level_10");
    assert_eq!(BadgeKind::FirstTask.metadata(), "{\"milestone\":1}");
    assert_eq!(BadgeKind::TaskMaster100.metadata(), "{\"milestone\":100}");
    assert_eq!(BadgeKind::WeekWarrior.metadata(), "{\"streak\":7}");
    assert_eq!(BadgeKind::Level10.metadata(), "{\"level\":10}");
}

#[test]
fn next_due_date_goes_by_the_recurrence() {
    let day = 86400;
    assert_eq!(next_due_date(Some(1000), "daily", 1), Some(1000 + day));
    assert_eq!(next_due_date(Some(1000), "daily", 3), Some(1000 + 3 * day));
    assert_eq!(next_due_date(Some(1000), "weekly", 2), Some(1000 + 14 * day));
    assert_eq!(next_due_date(Some(1000), "monthly", 1), Some(1000 + 30 * day));
    assert_eq!(next_due_date(Some(1000), "custom", 5), Some(1000));
    assert_eq!(next_due_date(Some(1000), "none", 5), Some(1000));
    assert_eq!(next_due_date(None, "daily", 1), None);
    assert_eq!(next_due_date(Some(1000), "daily", -1), Some(1000 - day));
    assert_eq!(next_due_date(Some(i64::MAX), "monthly", i32::MAX), Some(i64::MAX));
    assert_eq!(next_due_date(Some(0), "monthly", i32::MAX), Some(i32::MAX as i64 * 30 * day));
}

#[test]
fn toggling_plans_what_follows() {
    let t = plan_toggle(None, "weekly", "high", 77);
    assert_eq!((t.completed_at, t.recur, t.grant, t.revoke), (Some(77), true, Some(50), false));
    let t = plan_toggle(None, "none", "low", 77);
    assert_eq!((t.completed_at, t.recur, t.grant, t.revoke), (Some(77), false, Some(10), false));
    let t = plan_toggle(Some(5), "weekly", "high", 77);
    assert_eq!((t.completed_at, t.recur, t.grant, t.revoke), (None, false, None, true));
}

#[test]
fn reminders_are_scheduled_ahead() {
    let day = 86400;
    assert_eq!(reminder_times(10_000, Some(10), 9_000, false), vec![9_400]);
    assert_eq!(reminder_times(10_000, None, 9_000, false), vec![9_100]);
    assert!(reminder_times(10_000, Some(10), 9_400, false).is_empty());
    assert!(reminder_times(10_000, Some(10), 9_400, true).is_empty());
    assert_eq!(reminder_times(10_000, Some(10), 9_399, false), vec![9_400]);
    let repeated = reminder_times(10_000, Some(10), 9_000, true);
    assert_eq!(repeated.len(), 30);
    for (k, time) in repeated.iter().enumerate() {
        assert_eq!(*time, 9_400 + k as i64 * day);
    }
    assert!(*repeated.last().unwrap() <= 9_000 + 30 * day);
    let exact = reminder_times(30 * day + 600, Some(10), 0, true);
    assert_eq!(exact, vec![30 * day]);
    let one_more = reminder_times(29 * day + 600, Some(10), 0, true);
    assert_eq!(one_more, vec![29 * day, 30 * day]);
    let far = reminder_times(100 * day, Some(0), 0, true);
    assert_eq!(far, vec![100 * day]);
    assert_eq!(reminder_times(10_000, Some(-10), 9_000, false), vec![10_600]);
    assert_eq!(reminder_times(i64::MAX, Some(-10), 0, true), vec![i64::MAX]);
    assert_eq!(snooze_until(1000, 5), 1300);
    assert_eq!(snooze_until(1000, -5), 700);
    assert_eq!(snooze_until(i64::MAX, 5), i64::MAX);
    assert_eq!(reminder_message("Buy milk"), "Buy milk is due soon");
}

#[test]
fn shifting_stays_in_range() {
    assert_eq!(shift(10, 5), 15);
    assert_eq!(shift(10, -15), -5);
    assert_eq!(shift(i64::MAX, 1), i64::MAX);
    assert_eq!(shift(i64::MIN, -1), i64::MIN);
    assert_eq!(shift(i64::MAX, -1), i64::MAX - 1);
    assert_eq!(window_start(1_000_000, 7), 1_000_000 - 7 * 86400);
    assert_eq!(window_start(1_000_000, 0), 1_000_000);
    assert_eq!(window_start(i64::MIN, 7), i64::MIN);
}

#[test]
fn pomodoro_streak_follows_the_days() {
    let day = 86400;
    assert_eq!(next_streak(None, 5 * day), (1, 1));
    assert_eq!(next_streak(Some((4, 9, None)), 5 * day), (1, 1));
    assert_eq!(next_streak(Some((4, 9, Some(5 * day + 3))), 5 * day + 80_000), (4, 9));
    assert_eq!(next_streak(Some((4, 9, Some(4 * day + 3))), 5 * day), (5, 9));
    assert_eq!(next_streak(Some((9, 9, Some(4 * day + 3))), 5 * day), (10, 10));
    assert_eq!(next_streak(Some((4, 9, Some(3 * day))), 5 * day), (1, 9));
    assert_eq!(next_streak(Some((4, 9, Some(6 * day))), 5 * day), (1, 9));
    assert_eq!(next_streak(Some((i32::MAX, 9, Some(4 * day))), 5 * day), (i32::MAX, i32::MAX));
    assert_eq!(minutes_of(119), 1);
    assert_eq!(minutes_of(120), 2);
    assert_eq!(minutes_of(-119), -1);
    assert_eq!(minutes_of(0), 0);
}

#[test]
fn period_query_binds_the_ends_that_are_set() {
    let s = period_query("SELECT 1 FROM s WHERE u = ?1", None, None, " GROUP BY m");
    assert_eq!(s.sql, "SELECT 1 FROM s WHERE u = ?1 GROUP BY m");
    assert_eq!(shown(&s.params), vec!["'default'"]);
    let s = period_query("H", Some(5), None, "");
    assert_eq!(s.sql, "H AND completed_at >= ?");
    assert_eq!(shown(&s.params), vec!["'default'", "5"]);
    let s = period_query("H", None, Some(9), "T");
    assert_eq!(s.sql, "H AND completed_at <= ?T");
    assert_eq!(shown(&s.params), vec!["'default'", "9"]);
    let s = period_query("H", Some(5), Some(9), "");
    assert_eq!(s.sql, "H AND completed_at >= ? AND completed_at <= ?");
    assert_eq!(shown(&s.params), vec!["'default'", "5", "9"]);
}

const HEAD: &str = "SELECT id, title, description, due_at, created_at, updated_at, priority, completed_at, project_id, order_index, metadata, recurrence_type, recurrence_interval, recurrence_parent_id, reminder_minutes_before, notification_repeat FROM tasks WHERE 1=1";

fn no_filter() -> TaskFilter {
    TaskFilter { project_id: None, completed: None, due_before: None, due_after: None, search: None, tag_id: None }
}

#[test]
fn task_listing_follows_the_filter() {
    let s = task_query(&None, false).unwrap();
    assert_eq!(s.sql, format!("{} ORDER BY order_index, created_at", HEAD));
    assert!(s.params.is_empty());
    let s = task_query(&Some(no_filter()), false).unwrap();
    assert_eq!(s.sql, format!("{} ORDER BY order_index, created_at", HEAD));
    assert!(s.params.is_empty());
    let all = TaskFilter {
        project_id: Some("p1".to_string()),
        completed: Some(true),
        due_before: Some(200),
        due_after: Some(100),
        search: Some("milk".to_string()),
        tag_id: Some("t9".to_string()),
    };
    assert!(task_query(&Some(TaskFilter { tag_id: Some("t9".to_string()), ..no_filter() }), false).is_none());
    let s = task_query(&Some(all), true).unwrap();
    assert_eq!(
        s.sql,
        format!("{} AND project_id = ? AND completed_at IS NOT NULL AND due_at <= ? AND due_at >= ? AND (title LIKE ? OR description LIKE ?) AND id IN (SELECT task_id FROM task_tags WHERE tag_id = ?) ORDER BY order_index, created_at", HEAD)
    );
    assert_eq!(shown(&s.params), vec!["'p1'", "200", "100", "'%milk%'", "'%milk%'", "'t9'"]);
    let s = task_query(&Some(TaskFilter { completed: Some(false), ..no_filter() }), false).unwrap();
    assert_eq!(s.sql, format!("{} AND completed_at IS NULL ORDER BY order_index, created_at", HEAD));
    assert!(s.params.is_empty());
}

fn no_update() -> UpdateTaskInput {
    UpdateTaskInput {
        title: None,
        description: None,
        due_date: None,
        priority: None,
        project_id: None,
        order_index: None,
        recurrence_type: None,
        recurrence_interval: None,
        reminder_minutes_before: None,
        notification_repeat: None,
    }
}

#[test]
fn task_update_assigns_what_is_set() {
    assert!(task_update("id1", &no_update(), 50).is_none());
    let s = task_update("id1", &UpdateTaskInput { title: Some("New".to_string()), ..no_update() }, 50).unwrap();
    assert_eq!(s.sql, "UPDATE tasks SET title = ?, updated_at = ? WHERE id = ?");
    assert_eq!(shown(&s.params), vec!["'New'", "50", "'id1'"]);
    let everything = UpdateTaskInput {
        title: Some("T".to_string()),
        description: Some("D".to_string()),
        due_date: Some(9),
        priority: Some("low".to_string()),
        project_id: Some("P".to_string()),
        order_index: Some(3),
        recurrence_type: Some("daily".to_string()),
        recurrence_interval: Some(2),
        reminder_minutes_before: Some(15),
        notification_repeat: Some(true),
    };
    let s = task_update("id1", &everything, 50).unwrap();
    assert_eq!(
        s.sql,
        "UPDATE tasks SET title = ?, description = ?, due_at = ?, priority = ?, project_id = ?, order_index = ?, recurrence_type = ?, recurrence_interval = ?, reminder_minutes_before = ?, notification_repeat = ?, updated_at = ? WHERE id = ?"
    );
    assert_eq!(shown(&s.params), vec!["'T'", "'D'", "9", "'low'", "'P'", "3", "'daily'", "2", "15", "1", "50", "'id1'"]);
    let s = task_update("id1", &UpdateTaskInput { notification_repeat: Some(false), order_index: Some(-1), ..no_update() }, 50).unwrap();
    assert_eq!(s.sql, "UPDATE tasks SET order_index = ?, notification_repeat = ?, updated_at = ? WHERE id = ?");
    assert_eq!(shown(&s.params), vec!["-1", "0", "50", "'id1'"]);
    assert!(!reminders_affected(&no_update()));
    assert!(!reminders_affected(&UpdateTaskInput { title: Some("x".to_string()), ..no_update() }));
    assert!(reminders_affected(&UpdateTaskInput { due_date: Some(1), ..no_update() }));
    assert!(reminders_affected(&UpdateTaskInput { reminder_minutes_before: Some(1), ..no_update() }));
    assert!(reminders_affected(&UpdateTaskInput { notification_repeat: Some(false), ..no_update() }));
}

#[test]
fn update_statement_without_stamp() {
    let list = vec![
        Assignment { clause: "a = ?".to_string(), value: None },
        Assignment { clause: "b = ?".to_string(), value: Some(SqlValue::Integer(2)) },
        Assignment { clause: "c = ?".to_string(), value: Some(SqlValue::Null) },
    ];
    let s = update_statement("UPDATE t SET ", &list, None, "k").unwrap();
    assert_eq!(s.sql, "UPDATE t SET b = ?, c = ? WHERE id = ?");
    assert_eq!(shown(&s.params), vec!["2", "NULL", "'k'"]);
    assert!(update_statement("UPDATE t SET ", &Vec::new(), Some(1), "k").is_none());
    assert!(update_statement("UPDATE t SET ", &list[..1].to_vec(), Some(1), "k").is_none());
}

fn full_row() -> Vec<Cell> {
    vec![
        Cell::Text("id1".to_string()),
        Cell::Text("Title".to_string()),
        Cell::Null,
        Cell::Integer(500),
        Cell::Integer(10),
        Cell::Integer(20),
        Cell::Text("high".to_string()),
        Cell::Integer(15),
        Cell::Text("p1".to_string()),
        Cell::Integer(4),
        Cell::Null,
        Cell::Text("weekly".to_string()),
        Cell::Integer(2),
        Cell::Text("parent".to_string()),
        Cell::Integer(30),
        Cell::Integer(1),
    ]
}

#[test]
fn task_rows_are_read_with_fallbacks() {
    let t = task_from_row(&full_row()).unwrap();
    assert_eq!((t.id.as_str(), t.title.as_str(), t.description.clone(), t.due_date), ("id1", "Title", None, Some(500)));
    assert_eq!((t.created_at, t.updated_at, t.priority.as_str(), t.completed), (10, 20, "high", true));
    assert_eq!((t.project_id.clone(), t.order_index, t.recurrence_type.as_str(), t.recurrence_interval), (Some("p1".to_string()), 4, "weekly", 2));
    assert_eq!((t.recurrence_parent_id.clone(), t.reminder_minutes_before, t.notification_repeat), (Some("parent".to_string()), Some(30), true));
    assert!(t.tags.is_none());

    let mut row = full_row();
    row.truncate(9);
    row[7] = Cell::Null;
    let t = task_from_row(&row).unwrap();
    assert_eq!((t.completed, t.order_index, t.recurrence_type.as_str(), t.recurrence_interval), (false, 0, "none", 1));
    assert_eq!((t.recurrence_parent_id.clone(), t.reminder_minutes_before, t.notification_repeat), (None, None, false));

    let mut row = full_row();
    row[9] = Cell::Null;
    row[11] = Cell::Null;
    row[12] = Cell::Integer(1 << 40);
    row[13] = Cell::Null;
    row[14] = Cell::Text("soon".to_string());
    row[15] = Cell::Integer(0);
    let t = task_from_row(&row).unwrap();
    assert_eq!((t.order_index, t.recurrence_type.as_str(), t.recurrence_interval), (0, "none", 1));
    assert_eq!((t.recurrence_parent_id.clone(), t.reminder_minutes_before, t.notification_repeat), (None, None, false));

    for broken in [0usize, 1, 2, 3, 4, 5, 6, 7, 8] {
        let mut row = full_row();
        row[broken] = Cell::Real;
        assert!(task_from_row(&row).is_none(), "column {}", broken);
    }
    let mut row = full_row();
    row[1] = Cell::Null;
    assert!(task_from_row(&row).is_none());
    let mut row = full_row();
    row[0] = Cell::Garbled;
    assert!(task_from_row(&row).is_none());
    assert!(task_from_row(&Vec::new()).is_none());
}

#[test]
fn cells_are_read_by_type() {
    let row = vec![Cell::Null, Cell::Integer(7), Cell::Text("x".to_string()), Cell::Real, Cell::Blob(vec![1]), Cell::Integer(1 << 33), Cell::Integer(0), Cell::Garbled];
    assert_eq!(get_text(&row, 2), Some("x".to_string()));
    assert_eq!(get_text(&row, 0), None);
    assert_eq!(get_text(&row, 1), None);
    assert_eq!(get_text(&row, 7), None);
    assert_eq!(get_text(&row, 99), None);
    assert_eq!(get_opt_text(&row, 0), Some(None));
    assert_eq!(get_opt_text(&row, 2), Some(Some("x".to_string())));
    assert_eq!(get_opt_text(&row, 1), None);
    assert_eq!(get_opt_text(&row, 99), None);
    assert_eq!(get_i64(&row, 1), Some(7));
    assert_eq!(get_i64(&row, 5), Some(1 << 33));
    assert_eq!(get_i64(&row, 0), None);
    assert_eq!(get_i64(&row, 3), None);
    assert_eq!(get_i64(&row, 4), None);
    assert_eq!(get_opt_i64(&row, 0), Some(None));
    assert_eq!(get_opt_i64(&row, 1), Some(Some(7)));
    assert_eq!(get_opt_i64(&row, 2), None);
    assert_eq!(get_i32(&row, 1), Some(7));
    assert_eq!(get_i32(&row, 5), None);
    assert_eq!(get_i32(&row, 0), None);
    assert_eq!(get_opt_i32(&row, 0), Some(None));
    assert_eq!(get_opt_i32(&row, 1), Some(Some(7)));
    assert_eq!(get_opt_i32(&row, 5), None);
    assert_eq!(get_flag(&row, 1), Some(true));
    assert_eq!(get_flag(&row, 6), Some(false));
    assert_eq!(get_flag(&row, 0), None);
    let edge = vec![Cell::Integer(i32::MAX as i64), Cell::Integer(i32::MIN as i64), Cell::Integer(i32::MAX as i64 + 1), Cell::Integer(i32::MIN as i64 - 1)];
    assert_eq!(get_i32(&edge, 0), Some(i32::MAX));
    assert_eq!(get_i32(&edge, 1), Some(i32::MIN));
    assert_eq!(get_i32(&edge, 2), None);
    assert_eq!(get_i32(&edge, 3), None);
}

#[test]
fn names_and_joins() {
    let list = vec!["a".to_string(), "b".to_string()];
    assert!(contains_name(&list, "a"));
    assert!(contains_name(&list, "b"));
    assert!(!contains_name(&list, "c"));
    assert!(!contains_name(&list, "A"));
    assert!(!contains_name(&Vec::new(), ""));
    assert_eq!(join(&list, ", "), "a, b");
    assert_eq!(join(&vec!["only".to_string()], ", "), "only");
    assert_eq!(join(&Vec::new(), ", "), "");
    assert_eq!(join(&vec!["".to_string(), "".to_string(), "x".to_string()], "-"), "--x");
}

#[test]
fn tag_names_are_normalized() {
    assert_eq!(normalize("  Work "), "work");
    assert_eq!(normalize("HOME"), "home");
    assert_eq!(normalize("\t \n"), "");
    assert_eq!(normalize("a b"), "a b");
    assert_eq!(suggestion_pattern(" Wo "), "%wo%");
    assert_eq!(suggestion_pattern(""), "%%");
    let s = tasks_by_tags_query(&vec!["x".to_string(), "y".to_string(), "z".to_string()]);
    assert!(s.sql.contains("WHERE tt.tag_id IN (?, ?, ?)"));
    assert!(s.sql.starts_with("SELECT DISTINCT t.id, t.title"));
    assert!(s.sql.ends_with("ORDER BY t.order_index, t.created_at"));
    assert_eq!(shown(&s.params), vec!["'x'", "'y'", "'z'"]);
    let s = tasks_by_tags_query(&vec!["x".to_string()]);
    assert!(s.sql.contains("WHERE tt.tag_id IN (?)"));
}

#[test]
fn text_hash_is_sha256_in_hex() {
    assert_eq!(hash_text("hello"), "2cf24dba5fb0a30e26e83b2ac5b9e29e1b161e5c1fa7425e73043362938b9824");
    assert_eq!(hash_text(""), "e3b0c44298fc1c149afbf4c8996fb92427ae41e4649b934ca495991b7852b855");
    assert_eq!(hash_text("Merhaba d\u{fc}nya").len(), 64);
    assert_ne!(hash_text("a"), hash_text("b"));
    assert_eq!(hash_text("a"), hash_text("a"));
}

#[test]
fn language_is_guessed_from_the_letters() {
    assert_eq!(detect_language_locally("hello world"), "en");
    assert_eq!(detect_language_locally(""), "en");
    assert_eq!(detect_language_locally("g\u{fc}nayd\u{131}n"), "tr");
    for letter in ['\u{e7}', '\u{11f}', '\u{131}', '\u{f6}', '\u{15f}', '\u{fc}', '\u{c7}', '\u{11e}', '\u{130}', '\u{d6}', '\u{15e}', '\u{dc}'] {
        assert_eq!(detect_language_locally(&format!("abc{}", letter)), "tr");
    }
    assert_eq!(detect_language_locally("caf\u{e9}"), "en");
    assert_eq!(detect_language("   ", Some("de".to_string())), "en");
    assert_eq!(detect_language("hallo", Some("de".to_string())), "de");
    assert_eq!(detect_language("hallo", None), "en");
    assert_eq!(detect_language("\u{15f}eker", None), "tr");
    assert!(is_blank(""));
    assert!(is_blank(" \t\n"));
    assert!(!is_blank(" x "));
    assert!(remote_detection_wanted("x", &Some("key".to_string())));
    assert!(!remote_detection_wanted("x", &None));
    assert!(!remote_detection_wanted("  ", &Some("key".to_string())));
}

#[test]
fn translation_decisions() {
    let key = Some("k".to_string());
    assert_eq!(translation_route("text", "en", "tr", &key), Route::PaidThenFree);
    assert_eq!(translation_route("text", "en", "tr", &None), Route::Free);
    assert_eq!(translation_route("text", "tr", "tr", &key), Route::Unchanged);
    assert_eq!(translation_route("  ", "en", "tr", &key), Route::Unchanged);
    assert_eq!(choose_api_key(Some("env".to_string()), Some("db".to_string())), Some("env".to_string()));
    assert_eq!(choose_api_key(Some(String::new()), Some("db".to_string())), Some("db".to_string()));
    assert_eq!(choose_api_key(None, Some("db".to_string())), Some("db".to_string()));
    assert_eq!(choose_api_key(None, Some(String::new())), None);
    assert_eq!(choose_api_key(None, None), None);
    assert_eq!(source_text("title", "T", &Some("D".to_string())), Ok("T".to_string()));
    assert_eq!(source_text("description", "T", &Some("D".to_string())), Ok("D".to_string()));
    assert_eq!(source_text("description", "T", &None), Ok(String::new()));
    assert_eq!(source_text("notes", "T", &None), Err("Invalid field type. Must be 'title' or 'description'".to_string()));
}

#[test]
fn translation_progress_asks_each_question_once() {
    let mut p = Progress::new();
    assert_eq!(p.next_step(), Step::LookUp);
    assert_eq!(p.outcome(), None);
    p.first_look = Some(None);
    assert_eq!(p.next_step(), Step::DetectLanguage);
    p.language = Some("en".to_string());
    assert_eq!(p.next_step(), Step::AskCache);
    p.cached = Some(None);
    assert_eq!(p.next_step(), Step::Translate);
    p.translated = Some("Merhaba".to_string());
    assert_eq!(p.next_step(), Step::Store);
    p.stored = true;
    assert_eq!(p.next_step(), Step::Finish);
    assert_eq!(p.outcome(), Some("Merhaba".to_string()));

    let mut p = Progress::new();
    p.first_look = Some(Some("Selam".to_string()));
    assert_eq!(p.next_step(), Step::Finish);
    assert_eq!(p.outcome(), Some("Selam".to_string()));

    let mut p = Progress::new();
    p.first_look = Some(None);
    p.language = Some("en".to_string());
    p.cached = Some(Some("Cached".to_string()));
    assert_eq!(p.next_step(), Step::Finish);
    assert_eq!(p.outcome(), Some("Cached".to_string()));
}
