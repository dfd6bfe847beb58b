use rusqlite::Result as SqlResult;
use std::time::SystemTime;
use std::time::UNIX_EPOCH;
use tempfile::TempDir;
use todo_backend::db::DbConnection;
use uuid::Uuid;

fn setup_test_db() -> (TempDir, DbConnection) {
    let temp_dir = TempDir::new().unwrap();
    let db_path = temp_dir.path().join("test.db");
    let db = DbConnection::new(db_path.clone()).unwrap();

    // Create migrations table
    db.conn
        .execute(
            "CREATE TABLE IF NOT EXISTS migrations (
                id INTEGER PRIMARY KEY AUTOINCREMENT,
                name TEXT NOT NULL UNIQUE,
                applied_at INTEGER NOT NULL
            )",
            [],
        )
        .unwrap();

    // Run migrations manually for testing
    db.conn
        .execute_batch(
            "CREATE TABLE IF NOT EXISTS projects (
                id TEXT PRIMARY KEY,
                name TEXT NOT NULL,
                color TEXT,
                created_at INTEGER NOT NULL,
                updated_at INTEGER NOT NULL
            );
            CREATE TABLE IF NOT EXISTS tasks (
                id TEXT PRIMARY KEY,
                title TEXT NOT NULL,
                description TEXT,
                due_at INTEGER,
                created_at INTEGER NOT NULL,
                updated_at INTEGER NOT NULL,
                priority TEXT NOT NULL DEFAULT 'medium',
                completed_at INTEGER,
                project_id TEXT,
                order_index INTEGER DEFAULT 0,
                metadata TEXT,
                FOREIGN KEY (project_id) REFERENCES projects(id) ON DELETE SET NULL
            );
            CREATE TABLE IF NOT EXISTS settings (
                key TEXT PRIMARY KEY,
                value TEXT NOT NULL
            );
            CREATE TABLE IF NOT EXISTS subtasks (
                id TEXT PRIMARY KEY,
                task_id TEXT NOT NULL,
                title TEXT NOT NULL,
                completed INTEGER NOT NULL DEFAULT 0,
                FOREIGN KEY (task_id) REFERENCES tasks(id) ON DELETE CASCADE
            );
            CREATE TABLE IF NOT EXISTS attachments (
                id TEXT PRIMARY KEY,
                task_id TEXT NOT NULL,
                filename TEXT NOT NULL,
                path TEXT NOT NULL,
                mime TEXT,
                size INTEGER,
                created_at INTEGER NOT NULL,
                FOREIGN KEY (task_id) REFERENCES tasks(id) ON DELETE CASCADE
            );",
        )
        .unwrap();

    (temp_dir, db)
}

#[test]
fn test_db_initialization() {
    let (_temp_dir, db) = setup_test_db();

    // Verify migrations table exists
    let count: i64 =
        db.conn.query_row("SELECT COUNT(*) FROM migrations", [], |row| row.get(0)).unwrap();
    assert!(count >= 0);

    // Verify tables exist
    let tables: Vec<String> = db
        .conn
        .prepare("SELECT name FROM sqlite_master WHERE type='table'")
        .unwrap()
        .query_map([], |row| Ok(row.get(0)?))
        .unwrap()
        .collect::<SqlResult<Vec<String>>>()
        .unwrap();

    assert!(tables.contains(&"tasks".to_string()));
    assert!(tables.contains(&"projects".to_string()));
    assert!(tables.contains(&"settings".to_string()));
    assert!(tables.contains(&"subtasks".to_string()));
    assert!(tables.contains(&"attachments".to_string()));
}

#[test]
fn test_task_crud() {
    let (_temp_dir, db) = setup_test_db();
    let now = SystemTime::now().duration_since(UNIX_EPOCH).unwrap().as_secs() as i64;

    // Create task
    let task_id = Uuid::new_v4().to_string();
    db.conn
        .execute(
            "INSERT INTO tasks (id, title, description, due_at, created_at, updated_at, priority, completed_at, project_id, order_index, metadata)
             VALUES (?1, ?2, ?3, ?4, ?5, ?6, ?7, ?8, ?9, ?10, ?11)",
            (
                task_id.clone(),
                "Test Task",
                "Test Description",
                Some(now + 86400),
                now,
                now,
                "high",
                None::<i64>,
                None::<String>,
                0,
                None::<String>,
            ),
        )
        .unwrap();

    // Read task
    let title: String = db
        .conn
        .query_row("SELECT title FROM tasks WHERE id = ?1", [&task_id], |row| row.get(0))
        .unwrap();
    assert_eq!(title, "Test Task");

    // Update task
    db.conn
        .execute(
            "UPDATE tasks SET title = ?1, updated_at = ?2 WHERE id = ?3",
            ("Updated Task", now + 1, &task_id),
        )
        .unwrap();

    let updated_title: String = db
        .conn
        .query_row("SELECT title FROM tasks WHERE id = ?1", [&task_id], |row| row.get(0))
        .unwrap();
    assert_eq!(updated_title, "Updated Task");

    // Delete task
    db.conn.execute("DELETE FROM tasks WHERE id = ?1", [&task_id]).unwrap();

    let count: i64 = db
        .conn
        .query_row("SELECT COUNT(*) FROM tasks WHERE id = ?1", [&task_id], |row| row.get(0))
        .unwrap();
    assert_eq!(count, 0);
}

#[test]
fn test_project_crud() {
    let (_temp_dir, db) = setup_test_db();
    let now = SystemTime::now().duration_since(UNIX_EPOCH).unwrap().as_secs() as i64;

    // Create project
    let project_id = Uuid::new_v4().to_string();
    db.conn
        .execute(
            "INSERT INTO projects (id, name, color, created_at, updated_at) VALUES (?1, ?2, ?3, ?4, ?5)",
            (project_id.clone(), "Test Project", "#FF0000", now, now),
        )
        .unwrap();

    // Read project
    let name: String = db
        .conn
        .query_row("SELECT name FROM projects WHERE id = ?1", [&project_id], |row| row.get(0))
        .unwrap();
    assert_eq!(name, "Test Project");

    // Update project
    db.conn
        .execute("UPDATE projects SET name = ?1 WHERE id = ?2", ("Updated Project", &project_id))
        .unwrap();

    let updated_name: String = db
        .conn
        .query_row("SELECT name FROM projects WHERE id = ?1", [&project_id], |row| row.get(0))
        .unwrap();
    assert_eq!(updated_name, "Updated Project");

    // Delete project
    db.conn.execute("DELETE FROM projects WHERE id = ?1", [&project_id]).unwrap();

    let count: i64 = db
        .conn
        .query_row("SELECT COUNT(*) FROM projects WHERE id = ?1", [&project_id], |row| row.get(0))
        .unwrap();
    assert_eq!(count, 0);
}

#[test]
fn test_settings() {
    let (_temp_dir, db) = setup_test_db();

    // Insert setting
    db.conn
        .execute(
            "INSERT OR REPLACE INTO settings (key, value) VALUES (?1, ?2)",
            ("test_key", "test_value"),
        )
        .unwrap();

    // Read setting
    let value: String = db
        .conn
        .query_row("SELECT value FROM settings WHERE key = ?1", ["test_key"], |row| row.get(0))
        .unwrap();
    assert_eq!(value, "test_value");

    // Update setting
    db.conn
        .execute(
            "INSERT OR REPLACE INTO settings (key, value) VALUES (?1, ?2)",
            ("test_key", "updated_value"),
        )
        .unwrap();

    let updated_value: String = db
        .conn
        .query_row("SELECT value FROM settings WHERE key = ?1", ["test_key"], |row| row.get(0))
        .unwrap();
    assert_eq!(updated_value, "updated_value");
}
