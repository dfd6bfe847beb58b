//! The application's tables: their names, their columns, and the statements
//! that create or extend them.
//!
//! The column sets written here are what the creating statements declare; the
//! two are kept side by side so that a change to one is made to the other.

use vstd::prelude::*;
use vstd::string::StringExecFns;
use crate::text::concat;

verus! {

/// A table of the application that the startup sequence may have to create.
#[derive(Clone, Copy, Debug, PartialEq, Eq, Structural)]
pub enum CoreTable {
    Projects,
    Tasks,
    Settings,
    Subtasks,
    Attachments,
    TaskTemplates,
    UserProgress,
    Badges,
    XpHistory,
    NotificationSchedule,
}

impl CoreTable {
    /// The table's name in the database.
    pub open spec fn name_spec(self) -> Seq<char> {
        match self {
            CoreTable::Projects => "projects"@,
            CoreTable::Tasks => "tasks"@,
            CoreTable::Settings => "settings"@,
            CoreTable::Subtasks => "subtasks"@,
            CoreTable::Attachments => "attachments"@,
            CoreTable::TaskTemplates => "task_templates"@,
            CoreTable::UserProgress => "user_progress"@,
            CoreTable::Badges => "badges"@,
            CoreTable::XpHistory => "xp_history"@,
            CoreTable::NotificationSchedule => "notification_schedule"@,
        }
    }

    /// The table's name in the database.
    pub fn name(self) -> (n: &'static str)
        ensures
            n@ == self.name_spec(),
    {
        match self {
            CoreTable::Projects => "projects",
            CoreTable::Tasks => "tasks",
            CoreTable::Settings => "settings",
            CoreTable::Subtasks => "subtasks",
            CoreTable::Attachments => "attachments",
            CoreTable::TaskTemplates => "task_templates",
            CoreTable::UserProgress => "user_progress",
            CoreTable::Badges => "badges",
            CoreTable::XpHistory => "xp_history",
            CoreTable::NotificationSchedule => "notification_schedule",
        }
    }

    /// The columns that the table has when this library creates it.
    pub open spec fn columns(self) -> Set<Seq<char>> {
        match self {
            CoreTable::Projects => set!["id"@, "name"@, "color"@, "created_at"@, "updated_at"@],
            CoreTable::Tasks => set![
                "id"@,
                "title"@,
                "description"@,
                "due_at"@,
                "created_at"@,
                "updated_at"@,
                "priority"@,
                "completed_at"@,
                "project_id"@,
                "order_index"@,
                "metadata"@,
                "recurrence_type"@,
                "recurrence_interval"@,
                "recurrence_parent_id"@,
                "reminder_minutes_before"@,
                "notification_repeat"@
            ],
            CoreTable::Settings => set!["key"@, "value"@],
            CoreTable::Subtasks => set!["id"@, "task_id"@, "title"@, "completed"@],
            CoreTable::Attachments => set![
                "id"@,
                "task_id"@,
                "filename"@,
                "path"@,
                "mime"@,
                "size"@,
                "created_at"@
            ],
            CoreTable::TaskTemplates => set![
                "id"@,
                "name"@,
                "title"@,
                "description"@,
                "priority"@,
                "project_id"@,
                "created_at"@,
                "updated_at"@
            ],
            CoreTable::UserProgress => set![
                "id"@,
                "total_xp"@,
                "current_level"@,
                "current_streak"@,
                "longest_streak"@,
                "last_completion_date"@,
                "created_at"@,
                "updated_at"@
            ],
            CoreTable::Badges => set!["id"@, "user_id"@, "badge_type"@, "earned_at"@, "metadata"@],
            CoreTable::XpHistory => set![
                "id"@,
                "user_id"@,
                "xp_amount"@,
                "source"@,
                "task_id"@,
                "created_at"@
            ],
            CoreTable::NotificationSchedule => set![
                "id"@,
                "task_id"@,
                "scheduled_at"@,
                "snooze_until"@,
                "created_at"@
            ],
        }
    }

    /// The query that counts the tables of this name (0 or 1).
    pub open spec fn existence_query_spec(self) -> Seq<char> {
        "SELECT COUNT(*) FROM sqlite_master WHERE type='table' AND name='"@ + self.name_spec()
            + "'"@
    }

    /// The query that counts the tables of this name (0 or 1).
    pub fn existence_query(self) -> (sql: String)
        ensures
            sql@ == self.existence_query_spec(),
    {
        let mut sql = concat(
            "SELECT COUNT(*) FROM sqlite_master WHERE type='table' AND name='",
            self.name(),
        );
        sql.append("'");
        sql
    }

    /// The query that lists the names of the table's columns; it yields no
    /// row where the table does not exist.
    pub open spec fn columns_query_spec(self) -> Seq<char> {
        "SELECT name FROM pragma_table_info('"@ + self.name_spec() + "')"@
    }

    /// The query that lists the names of the table's columns.
    pub fn columns_query(self) -> (sql: String)
        ensures
            sql@ == self.columns_query_spec(),
    {
        let mut sql = concat("SELECT name FROM pragma_table_info('", self.name());
        sql.append("')");
        sql
    }
}

/// A column that older databases may lack and that is added in place.
#[derive(Clone, Copy, Debug, PartialEq, Eq, Structural)]
pub enum CriticalColumn {
    AttachmentSize,
    RecurrenceType,
    RecurrenceInterval,
    RecurrenceParentId,
    ReminderMinutesBefore,
    NotificationRepeat,
}

impl CriticalColumn {
    /// The table that the column belongs to.
    pub open spec fn table_spec(self) -> CoreTable {
        match self {
            CriticalColumn::AttachmentSize => CoreTable::Attachments,
            _ => CoreTable::Tasks,
        }
    }

    /// The table that the column belongs to.
    pub fn table(self) -> (t: CoreTable)
        ensures
            t == self.table_spec(),
    {
        match self {
            CriticalColumn::AttachmentSize => CoreTable::Attachments,
            _ => CoreTable::Tasks,
        }
    }

    /// The column's name.
    pub open spec fn name_spec(self) -> Seq<char> {
        match self {
            CriticalColumn::AttachmentSize => "size"@,
            CriticalColumn::RecurrenceType => "recurrence_type"@,
            CriticalColumn::RecurrenceInterval => "recurrence_interval"@,
            CriticalColumn::RecurrenceParentId => "recurrence_parent_id"@,
            CriticalColumn::ReminderMinutesBefore => "reminder_minutes_before"@,
            CriticalColumn::NotificationRepeat => "notification_repeat"@,
        }
    }

    /// The column's name.
    pub fn name(self) -> (n: &'static str)
        ensures
            n@ == self.name_spec(),
    {
        match self {
            CriticalColumn::AttachmentSize => "size",
            CriticalColumn::RecurrenceType => "recurrence_type",
            CriticalColumn::RecurrenceInterval => "recurrence_interval",
            CriticalColumn::RecurrenceParentId => "recurrence_parent_id",
            CriticalColumn::ReminderMinutesBefore => "reminder_minutes_before",
            CriticalColumn::NotificationRepeat => "notification_repeat",
        }
    }

    /// The statement that adds the column. SQLite rejects it where the column
    /// is already there, so it is only ever run after a look at the table.
    pub open spec fn statement_spec(self) -> Seq<char> {
        match self {
            CriticalColumn::AttachmentSize => "ALTER TABLE attachments ADD COLUMN size INTEGER"@,
            CriticalColumn::RecurrenceType =>
                "ALTER TABLE tasks ADD COLUMN recurrence_type TEXT DEFAULT 'none'"@,
            CriticalColumn::RecurrenceInterval =>
                "ALTER TABLE tasks ADD COLUMN recurrence_interval INTEGER DEFAULT 1"@,
            CriticalColumn::RecurrenceParentId =>
                "ALTER TABLE tasks ADD COLUMN recurrence_parent_id TEXT"@,
            CriticalColumn::ReminderMinutesBefore =>
                "ALTER TABLE tasks ADD COLUMN reminder_minutes_before INTEGER DEFAULT NULL"@,
            CriticalColumn::NotificationRepeat =>
                "ALTER TABLE tasks ADD COLUMN notification_repeat INTEGER DEFAULT 0"@,
        }
    }

    /// The statement that adds the column.
    pub fn statement(self) -> (sql: &'static str)
        ensures
            sql@ == self.statement_spec(),
    {
        match self {
            CriticalColumn::AttachmentSize => "ALTER TABLE attachments ADD COLUMN size INTEGER",
            CriticalColumn::RecurrenceType =>
                "ALTER TABLE tasks ADD COLUMN recurrence_type TEXT DEFAULT 'none'",
            CriticalColumn::RecurrenceInterval =>
                "ALTER TABLE tasks ADD COLUMN recurrence_interval INTEGER DEFAULT 1",
            CriticalColumn::RecurrenceParentId =>
                "ALTER TABLE tasks ADD COLUMN recurrence_parent_id TEXT",
            CriticalColumn::ReminderMinutesBefore =>
                "ALTER TABLE tasks ADD COLUMN reminder_minutes_before INTEGER DEFAULT NULL",
            CriticalColumn::NotificationRepeat =>
                "ALTER TABLE tasks ADD COLUMN notification_repeat INTEGER DEFAULT 0",
        }
    }
}

/// A batch of `CREATE TABLE IF NOT EXISTS` and `CREATE INDEX IF NOT EXISTS`
/// statements. Each is harmless where its table or index is already there.
#[derive(Clone, Copy, Debug, PartialEq, Eq, Structural)]
pub enum Creation {
    /// The attachments table and its index.
    Attachments,
    /// The task templates table and its indexes.
    TaskTemplates,
    /// The progress table.
    UserProgress,
    /// The badge table and its indexes.
    Badges,
    /// The experience-history table and its indexes.
    XpHistory,
    /// The notification schedule table and its indexes.
    NotificationSchedule,
    /// Every table a fresh installation starts with.
    Baseline,
}

impl Creation {
    /// The tables that the batch creates where they are missing, in order.
    pub open spec fn tables(self) -> Seq<CoreTable> {
        match self {
            Creation::Attachments => seq![CoreTable::Attachments],
            Creation::TaskTemplates => seq![CoreTable::TaskTemplates],
            Creation::UserProgress => seq![CoreTable::UserProgress],
            Creation::Badges => seq![CoreTable::Badges],
            Creation::XpHistory => seq![CoreTable::XpHistory],
            Creation::NotificationSchedule => seq![CoreTable::NotificationSchedule],
            Creation::Baseline => seq![
                CoreTable::Projects,
                CoreTable::Tasks,
                CoreTable::Settings,
                CoreTable::Subtasks,
                CoreTable::Attachments,
                CoreTable::TaskTemplates,
                CoreTable::UserProgress,
                CoreTable::Badges,
                CoreTable::XpHistory
            ],
        }
    }

    /// The text of the batch.
    pub open spec fn statement_spec(self) -> Seq<char> {
        match self {
            Creation::Attachments => CREATE_ATTACHMENTS@,
            Creation::TaskTemplates => CREATE_TASK_TEMPLATES@,
            Creation::UserProgress => CREATE_USER_PROGRESS@,
            Creation::Badges => CREATE_BADGES@,
            Creation::XpHistory => CREATE_XP_HISTORY@,
            Creation::NotificationSchedule => CREATE_NOTIFICATION_SCHEDULE@,
            Creation::Baseline => CREATE_BASELINE@,
        }
    }

    /// The text of the batch.
    pub fn statement(self) -> (sql: &'static str)
        ensures
            sql@ == self.statement_spec(),
    {
        match self {
            Creation::Attachments => CREATE_ATTACHMENTS,
            Creation::TaskTemplates => CREATE_TASK_TEMPLATES,
            Creation::UserProgress => CREATE_USER_PROGRESS,
            Creation::Badges => CREATE_BADGES,
            Creation::XpHistory => CREATE_XP_HISTORY,
            Creation::NotificationSchedule => CREATE_NOTIFICATION_SCHEDULE,
            Creation::Baseline => CREATE_BASELINE,
        }
    }
}

/// Creates the attachment table and its index.
pub const CREATE_ATTACHMENTS: &'static str =
    "CREATE TABLE IF NOT EXISTS attachments (
                    id TEXT PRIMARY KEY,
                    task_id TEXT NOT NULL,
                    filename TEXT NOT NULL,
                    path TEXT NOT NULL,
                    mime TEXT,
                    size INTEGER,
                    created_at INTEGER NOT NULL,
                    FOREIGN KEY (task_id) REFERENCES tasks(id) ON DELETE CASCADE
                );
                CREATE INDEX IF NOT EXISTS idx_attachments_task_id ON attachments(task_id);";

/// Creates the template table and its indexes.
pub const CREATE_TASK_TEMPLATES: &'static str =
    "CREATE TABLE IF NOT EXISTS task_templates (
                    id TEXT PRIMARY KEY NOT NULL,
                    name TEXT NOT NULL,
                    title TEXT NOT NULL,
                    description TEXT,
                    priority TEXT NOT NULL DEFAULT 'medium',
                    project_id TEXT,
                    created_at INTEGER NOT NULL,
                    updated_at INTEGER NOT NULL,
                    FOREIGN KEY (project_id) REFERENCES projects(id) ON DELETE SET NULL
                );
                CREATE INDEX IF NOT EXISTS idx_templates_name ON task_templates(name);
                CREATE INDEX IF NOT EXISTS idx_templates_created ON task_templates(created_at);";

/// Creates the progress table.
pub const CREATE_USER_PROGRESS: &'static str =
    "CREATE TABLE IF NOT EXISTS user_progress (
                    id TEXT PRIMARY KEY DEFAULT 'default',
                    total_xp INTEGER NOT NULL DEFAULT 0,
                    current_level INTEGER NOT NULL DEFAULT 1,
                    current_streak INTEGER NOT NULL DEFAULT 0,
                    longest_streak INTEGER NOT NULL DEFAULT 0,
                    last_completion_date INTEGER,
                    created_at INTEGER NOT NULL,
                    updated_at INTEGER NOT NULL
                );";

/// Creates the badge table and its indexes.
pub const CREATE_BADGES: &'static str =
    "CREATE TABLE IF NOT EXISTS badges (
                    id TEXT PRIMARY KEY,
                    user_id TEXT NOT NULL DEFAULT 'default',
                    badge_type TEXT NOT NULL,
                    earned_at INTEGER NOT NULL,
                    metadata TEXT,
                    FOREIGN KEY (user_id) REFERENCES user_progress(id) ON DELETE CASCADE
                );
                CREATE INDEX IF NOT EXISTS idx_badges_user_id ON badges(user_id);
                CREATE INDEX IF NOT EXISTS idx_badges_badge_type ON badges(badge_type);";

/// Creates the experience-history table and its indexes.
pub const CREATE_XP_HISTORY: &'static str =
    "CREATE TABLE IF NOT EXISTS xp_history (
                    id TEXT PRIMARY KEY,
                    user_id TEXT NOT NULL DEFAULT 'default',
                    xp_amount INTEGER NOT NULL,
                    source TEXT NOT NULL,
                    task_id TEXT,
                    created_at INTEGER NOT NULL,
                    FOREIGN KEY (user_id) REFERENCES user_progress(id) ON DELETE CASCADE,
                    FOREIGN KEY (task_id) REFERENCES tasks(id) ON DELETE SET NULL
                );
                CREATE INDEX IF NOT EXISTS idx_xp_history_user_id ON xp_history(user_id);
                CREATE INDEX IF NOT EXISTS idx_xp_history_created_at ON xp_history(created_at);
                CREATE INDEX IF NOT EXISTS idx_xp_history_source ON xp_history(source);";

/// Writes the row of the default user into the progress table, unless it is
/// there: `?1` is the time of creation, `?2` the time of the last change.
pub const INSERT_DEFAULT_USER: &'static str =
    "INSERT OR IGNORE INTO user_progress (id, total_xp, current_level, current_streak, longest_streak, created_at, updated_at) VALUES ('default', 0, 1, 0, 0, ?1, ?2)";

/// Counts the rows of the default user in the progress table (0 or 1).
pub const COUNT_DEFAULT_USER: &'static str =
    "SELECT COUNT(*) FROM user_progress WHERE id = 'default'";

/// Creates the notification schedule and its indexes.
pub const CREATE_NOTIFICATION_SCHEDULE: &'static str =
    "CREATE TABLE IF NOT EXISTS notification_schedule (
                    id TEXT PRIMARY KEY NOT NULL,
                    task_id TEXT NOT NULL,
                    scheduled_at INTEGER NOT NULL,
                    snooze_until INTEGER,
                    created_at INTEGER NOT NULL,
                    FOREIGN KEY (task_id) REFERENCES tasks(id) ON DELETE CASCADE
                );
                CREATE INDEX IF NOT EXISTS idx_notification_schedule_scheduled_at ON notification_schedule(scheduled_at);
                CREATE INDEX IF NOT EXISTS idx_notification_schedule_task_id ON notification_schedule(task_id);";

/// Creates every table a fresh installation starts with, and their indexes:
/// the tables of the first schema, the template table and the progress
/// tables, so that the reconciler finds nothing to repair afterwards.
pub const CREATE_BASELINE: &'static str =
    "CREATE TABLE IF NOT EXISTS projects (
                    id TEXT PRIMARY KEY,
                    name TEXT NOT NULL,
                    color TEXT,
                    created_at INTEGER NOT NULL,
                    updated_at INTEGER NOT NULL
                );
                CREATE TABLE IF NOT EXISTS tasks (
                    id TEXT PRIMARY KEY,
                    title TEXT NOT NULL,
                    description TEXT,
                    due_at INTEGER,
                    created_at INTEGER NOT NULL,
                    updated_at INTEGER NOT NULL,
                    priority TEXT NOT NULL DEFAULT 'medium',
                    completed_at INTEGER,
                    project_id TEXT,
                    order_index INTEGER DEFAULT 0,
                    metadata TEXT,
                    recurrence_type TEXT DEFAULT 'none',
                    recurrence_interval INTEGER DEFAULT 1,
                    recurrence_parent_id TEXT,
                    reminder_minutes_before INTEGER DEFAULT NULL,
                    notification_repeat INTEGER DEFAULT 0,
                    FOREIGN KEY (project_id) REFERENCES projects(id) ON DELETE SET NULL
                );
                CREATE TABLE IF NOT EXISTS settings (
                    key TEXT PRIMARY KEY,
                    value TEXT NOT NULL
                );
                CREATE TABLE IF NOT EXISTS subtasks (
                    id TEXT PRIMARY KEY,
                    task_id TEXT NOT NULL,
                    title TEXT NOT NULL,
                    completed INTEGER NOT NULL DEFAULT 0,
                    FOREIGN KEY (task_id) REFERENCES tasks(id) ON DELETE CASCADE
                );
                CREATE TABLE IF NOT EXISTS attachments (
                    id TEXT PRIMARY KEY,
                    task_id TEXT NOT NULL,
                    filename TEXT NOT NULL,
                    path TEXT NOT NULL,
                    mime TEXT,
                    size INTEGER,
                    created_at INTEGER NOT NULL,
                    FOREIGN KEY (task_id) REFERENCES tasks(id) ON DELETE CASCADE
                );
                CREATE INDEX IF NOT EXISTS idx_tasks_project_id ON tasks(project_id);
                CREATE INDEX IF NOT EXISTS idx_tasks_due_at ON tasks(due_at);
                CREATE INDEX IF NOT EXISTS idx_tasks_completed_at ON tasks(completed_at);
                CREATE TABLE IF NOT EXISTS task_templates (
                    id TEXT PRIMARY KEY NOT NULL,
                    name TEXT NOT NULL,
                    title TEXT NOT NULL,
                    description TEXT,
                    priority TEXT NOT NULL DEFAULT 'medium',
                    project_id TEXT,
                    created_at INTEGER NOT NULL,
                    updated_at INTEGER NOT NULL,
                    FOREIGN KEY (project_id) REFERENCES projects(id) ON DELETE SET NULL
                );
                CREATE INDEX IF NOT EXISTS idx_templates_name ON task_templates(name);
                CREATE INDEX IF NOT EXISTS idx_templates_created ON task_templates(created_at);
                CREATE TABLE IF NOT EXISTS user_progress (
                    id TEXT PRIMARY KEY DEFAULT 'default',
                    total_xp INTEGER NOT NULL DEFAULT 0,
                    current_level INTEGER NOT NULL DEFAULT 1,
                    current_streak INTEGER NOT NULL DEFAULT 0,
                    longest_streak INTEGER NOT NULL DEFAULT 0,
                    last_completion_date INTEGER,
                    created_at INTEGER NOT NULL,
                    updated_at INTEGER NOT NULL
                );
                CREATE TABLE IF NOT EXISTS badges (
                    id TEXT PRIMARY KEY,
                    user_id TEXT NOT NULL DEFAULT 'default',
                    badge_type TEXT NOT NULL,
                    earned_at INTEGER NOT NULL,
                    metadata TEXT,
                    FOREIGN KEY (user_id) REFERENCES user_progress(id) ON DELETE CASCADE
                );
                CREATE TABLE IF NOT EXISTS xp_history (
                    id TEXT PRIMARY KEY,
                    user_id TEXT NOT NULL DEFAULT 'default',
                    xp_amount INTEGER NOT NULL,
                    source TEXT NOT NULL,
                    task_id TEXT,
                    created_at INTEGER NOT NULL,
                    FOREIGN KEY (user_id) REFERENCES user_progress(id) ON DELETE CASCADE,
                    FOREIGN KEY (task_id) REFERENCES tasks(id) ON DELETE SET NULL
                );
                CREATE INDEX IF NOT EXISTS idx_badges_user_id ON badges(user_id);
                CREATE INDEX IF NOT EXISTS idx_badges_badge_type ON badges(badge_type);
                CREATE INDEX IF NOT EXISTS idx_xp_history_user_id ON xp_history(user_id);
                CREATE INDEX IF NOT EXISTS idx_xp_history_created_at ON xp_history(created_at);
                CREATE INDEX IF NOT EXISTS idx_xp_history_source ON xp_history(source);";

/// The tables by which a database counts as set up: those of the first
/// schema of the application. Where none of them exists and no migration is
/// on record, the database is taken to be fresh.
pub open spec fn core_tables() -> Seq<CoreTable> {
    seq![
        CoreTable::Projects,
        CoreTable::Tasks,
        CoreTable::Settings,
        CoreTable::Subtasks,
        CoreTable::Attachments,
        CoreTable::TaskTemplates
    ]
}

/// The tables by which a database counts as set up.
pub fn core_table_list() -> (list: Vec<CoreTable>)
    ensures
        list@ == core_tables(),
{
    let mut list: Vec<CoreTable> = Vec::new();
    list.push(CoreTable::Projects);
    list.push(CoreTable::Tasks);
    list.push(CoreTable::Settings);
    list.push(CoreTable::Subtasks);
    list.push(CoreTable::Attachments);
    list.push(CoreTable::TaskTemplates);
    assert(list@ =~= core_tables());
    list
}

} // verus!
