//! The statistics, pomodoro and reminder functions as the user interface
//! calls them: on the one connection, with failures reported as texts.

use vstd::prelude::*;
use crate::text::begins_with;
use crate::error::listing_failure;
use crate::db::DbConnection;
use crate::pomodoro_service::DailyPomodoroStats;
use crate::pomodoro_service::PomodoroSession;
use crate::pomodoro_service::PomodoroStreak;
use crate::pomodoro_service::PomodoroTotals;
use crate::stats_service::CompletionStats;
use crate::stats_service::MostProductiveDay;
use crate::stats_service::PriorityDistribution;
use crate::stats_service::ProjectCounts;
use crate::text::concat;

verus! {

/// What the user interface sends to record a session.
#[derive(Debug)]
pub struct CreatePomodoroSessionInput {
    pub task_id: Option<String>,
    pub started_at: i64,
    pub completed_at: i64,
    pub duration_seconds: i32,
    pub mode: String,
    pub was_completed: bool,
    pub task_completed: bool,
}

/// A task's texts in another language.
#[derive(Debug)]
pub struct TranslatedContent {
    pub title: String,
    pub description: Option<String>,
    pub source_lang: String,
    pub target_lang: String,
}

/// What the user interface sends to have a task translated.
#[derive(Debug)]
pub struct TranslationRequest {
    pub task_id: String,
    pub target_lang: String,
}

/// Puts `prefix` before the message of a failure.
pub fn prefixed<T>(outcome: Result<T, String>, prefix: &str) -> (r: Result<T, String>)
    ensures
        match outcome {
            Ok(value) => r == Ok::<T, String>(value),
            Err(message) => r is Err && r->Err_0@ == prefix@ + message@ && begins_with(
                r->Err_0@,
                prefix@,
            ),
        },
{
    match outcome {
        Ok(value) => Ok(value),
        Err(message) => Err(concat(prefix, message.as_str())),
    }
}

/// Records a session.
pub fn create_pomodoro_session(db: &DbConnection, input: CreatePomodoroSessionInput) -> (r: Result<
    PomodoroSession,
    String,
>)
    ensures
        r matches Ok(session) ==> {
            &&& session.user_id@ == "default"@
            &&& session.task_id == input.task_id
            &&& session.started_at == input.started_at
            &&& session.completed_at == input.completed_at
            &&& session.duration_seconds == input.duration_seconds
            &&& session.mode == input.mode
            &&& session.was_completed == input.was_completed
            &&& session.task_completed == input.task_completed
        },
        r matches Err(message) ==> begins_with(message@, "Failed to create pomodoro session: "@),
{
    prefixed(
        crate::pomodoro_service::create_pomodoro_session(
            &db.conn,
            input.task_id,
            input.started_at,
            input.completed_at,
            input.duration_seconds,
            input.mode,
            input.was_completed,
            input.task_completed,
        ),
        "Failed to create pomodoro session: ",
    )
}

/// The sessions of a period, counted.
pub fn get_pomodoro_stats(db: &DbConnection, start_date: Option<i64>, end_date: Option<i64>) -> (r:
    Result<PomodoroTotals, String>)
    ensures
        r matches Err(message) ==> begins_with(message@, "Failed to get pomodoro stats: "@),
{
    prefixed(
        crate::pomodoro_service::pomodoro_totals(&db.conn, start_date, end_date),
        "Failed to get pomodoro stats: ",
    )
}

/// The sessions between the two times, counted by day.
pub fn get_daily_pomodoro_stats(db: &DbConnection, start_date: i64, end_date: i64) -> (r: Result<
    Vec<DailyPomodoroStats>,
    String,
>)
    ensures
        r matches Err(message) ==> begins_with(message@, "Failed to get daily pomodoro stats: "@),
{
    prefixed(
        crate::pomodoro_service::get_daily_stats(&db.conn, start_date, end_date),
        "Failed to get daily pomodoro stats: ",
    )
}

/// The streak of days with a session.
pub fn get_pomodoro_streak(db: &DbConnection) -> (r: Result<PomodoroStreak, String>)
    ensures
        r matches Err(message) ==> begins_with(message@, "Failed to get pomodoro streak: "@),
{
    prefixed(
        crate::pomodoro_service::get_pomodoro_streak(&db.conn),
        "Failed to get pomodoro streak: ",
    )
}

/// Keeps a reminder silent for the given number of minutes.
pub fn snooze_notification(db: &DbConnection, notification_id: String, minutes: i32) -> (r: Result<
    (),
    String,
>)
    ensures
        r matches Err(message) ==> begins_with(message@, "Failed to snooze notification: "@),
{
    prefixed(
        crate::notifications::snooze_notification(db, notification_id.as_str(), minutes),
        "Failed to snooze notification: ",
    )
}

/// The tasks completed in the last `days` days, counted by day.
pub fn get_completion_stats(db: &DbConnection, days: i32) -> (r: Result<
    Vec<CompletionStats>,
    String,
>)
    ensures
        r matches Err(message) ==> listing_failure(message@),
{
    crate::stats_service::get_completion_stats(&db.conn, days)
}

/// The tasks counted by priority.
pub fn get_priority_distribution(db: &DbConnection) -> (r: Result<
    Vec<PriorityDistribution>,
    String,
>)
    ensures
        r matches Err(message) ==> listing_failure(message@),
{
    crate::stats_service::get_priority_distribution(&db.conn)
}

/// The tasks counted by project.
pub fn get_project_stats(db: &DbConnection) -> (r: Result<Vec<ProjectCounts>, String>)
    ensures
        r matches Err(message) ==> listing_failure(message@),
{
    crate::stats_service::project_counts(&db.conn)
}

/// The day of the week on which most tasks were completed.
pub fn get_most_productive_day(db: &DbConnection) -> (r: Result<Option<MostProductiveDay>, String>)
    ensures
        r matches Err(message) ==> begins_with(message@, "Query error: "@)
            || begins_with(message@, "Query execution error: "@),
{
    crate::stats_service::get_most_productive_day(&db.conn)
}

} // verus!
