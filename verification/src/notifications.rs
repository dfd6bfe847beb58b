//! Reminders: when they are due, how they are scheduled, snoozed and
//! collected for delivery. Showing a reminder on screen is left to the
//! caller.

use vstd::prelude::*;
use crate::clock::now;
use crate::db::DbConnection;
use crate::ids::new_id;
use crate::rows::first_row;
use crate::rows::get_i32;
use crate::rows::get_opt_i32;
use crate::rows::get_opt_i64;
use crate::rows::get_text;
use crate::rows::text_at;
use crate::sqlite::values;
use crate::sqlite::Datum;
use crate::rows::small_at;
use crate::rows::opt_small_at;
use crate::rows::opt_small;
use crate::rows::opt_int_at;
use crate::numbers::shift;
use crate::numbers::shifted;
use crate::error::describe_error;
use crate::error::written;
use crate::sqlite::execute_with;
use crate::sqlite::query_rows;
use crate::sqlite::Cell;
use crate::sqlite::SqlValue;
use crate::statement::bind_text;
use crate::text::concat;

verus! {

/// The seconds of one day.
pub const DAY: i64 = 86400;

/// How far ahead repeated reminders are scheduled, in days.
pub const HORIZON_DAYS: i64 = 30;

/// The minutes before the due time at which a reminder is sent where the
/// task does not say.
pub const DEFAULT_REMINDER_MINUTES: i32 = 15;

/// The time of the first reminder for a task due at `due_at`: `minutes`
/// minutes before it, held inside the range of `i64`.
pub open spec fn first_reminder(due_at: int, minutes: int) -> int {
    shifted(due_at, -(minutes * 60))
}

/// The last moment for which a reminder is scheduled at `now`.
pub open spec fn horizon(now: int) -> int {
    shifted(now, 2592000int)
}

/// The times at which a task due at `due_at` is to be reminded of, as seen
/// at `now`.
///
/// None where the first reminder would not lie in the future. Otherwise the
/// first reminder, `reminder_minutes` before the due time (15 where that is
/// not set); and, where `repeat` is set, one more for each following day as
/// long as it lies within thirty days from `now`.
pub fn reminder_times(due_at: i64, reminder_minutes: Option<i32>, now: i64, repeat: bool) -> (times:
    Vec<i64>)
    ensures
        ({
            let minutes = match reminder_minutes {
                Some(m) => m as int,
                None => 15,
            };
            let first = first_reminder(due_at as int, minutes);
            &&& first <= now ==> times@.len() == 0
            &&& first > now ==> times@.len() >= 1
            &&& first > now && !repeat ==> times@.len() == 1
            &&& forall|k: int| 0 <= k < times@.len() ==> #[trigger] times@[k] == first + k * 86400
            &&& forall|k: int| 1 <= k < times@.len() ==> #[trigger] times@[k] <= horizon(now as int)
            &&& first > now && repeat ==> first + times@.len() * 86400 > horizon(now as int)
        }),
{
    let minutes: i32 = match reminder_minutes {
        Some(m) => m,
        None => DEFAULT_REMINDER_MINUTES,
    };
    let first = shift(due_at, -(minutes as i64 * 60));
    let mut times: Vec<i64> = Vec::new();
    if first <= now {
        return times;
    }
    times.push(first);
    if !repeat {
        return times;
    }
    let last = shift(now, HORIZON_DAYS * DAY);
    let mut next: i128 = first as i128 + 86400;
    if next > last as i128 {
        return times;
    }
    while next <= last as i128
        invariant
            times@.len() >= 1,
            next == first + times@.len() * 86400,
            forall|k: int| 0 <= k < times@.len() ==> #[trigger] times@[k] == first + k * 86400,
            forall|k: int| 1 <= k < times@.len() ==> #[trigger] times@[k] <= last,
            first > now,
            last == horizon(now as int),
            next <= last + 86400,
        decreases last + 86400 - next,
    {
        times.push(next as i64);
        next = next + 86400;
    }
    times
}

/// The time until which a reminder snoozed at `now` for `minutes` minutes
/// stays silent.
pub fn snooze_until(now: i64, minutes: i32) -> (until: i64)
    ensures
        until == shifted(now as int, minutes * 60),
{
    shift(now, minutes as i64 * 60)
}

/// A reminder that is due.
#[derive(Debug, Clone)]
pub struct Reminder {
    pub task_id: String,
    pub title: String,
    /// The text to show: the task's title and the words `is due soon`.
    pub message: String,
}

/// The headline of every reminder.
pub const REMINDER_TITLE: &'static str = "Task Reminder";

/// The text of the reminder for the task called `title`.
pub fn reminder_message(title: &str) -> (message: String)
    ensures
        message@ == title@ + " is due soon"@,
{
    concat(title, " is due soon")
}

/// What the scheduling of a task's reminders needs to know of the task, read
/// from a row of the columns due_at, notification_repeat: the due time, and
/// whether reminders are repeated, which they are where the second column is
/// 1. Nothing is scheduled (`None`) for a task without due time, or whose row
/// cannot be read.
pub fn schedule_facts(row: &Vec<Cell>) -> (r: Option<(i64, bool)>)
    ensures
        r is Some <==> (opt_int_at(row@, 0) matches Some(Some(_))) && small_at(row@, 1) is Some,
        r matches Some(facts) ==> opt_int_at(row@, 0) == Some(Some(facts.0 as int)) && facts.1 == (
        small_at(row@, 1) == Some(1int)),
{
    let due_at = match get_opt_i64(row, 0) {
        Some(Some(due_at)) => due_at,
        _ => {
            return None;
        },
    };
    let repeat = get_i32(row, 1)?;
    Some((due_at, repeat == 1))
}

/// The values bound to the insert of a reminder: its id, its task, its time,
/// no snooze, and the time of the scheduling.
pub open spec fn reminder_values(id: Seq<char>, task_id: Seq<char>, time: int, created_at: int) -> Seq<
    Datum,
> {
    seq![
        Datum::Text(id),
        Datum::Text(task_id),
        Datum::Integer(time),
        Datum::Null,
        Datum::Integer(created_at)
    ]
}

/// The values bound to the insert of a reminder.
pub fn reminder_parameters(id: String, task_id: &str, time: i64, created_at: i64) -> (params: Vec<
    SqlValue,
>)
    ensures
        values(params@) == reminder_values(id@, task_id@, time as int, created_at as int),
{
    let mut params: Vec<SqlValue> = Vec::new();
    params.push(SqlValue::Text(id));
    params.push(bind_text(task_id));
    params.push(SqlValue::Integer(time));
    params.push(SqlValue::Null);
    params.push(SqlValue::Integer(created_at));
    assert(values(params@) =~= reminder_values(id@, task_id@, time as int, created_at as int));
    params
}

/// A task that may need reminders, read from a row of the columns id,
/// due_at, reminder_minutes_before: its id and its reminder setting. There
/// is none where the row cannot be read or the task has no due time.
pub fn reminder_candidate(row: &Vec<Cell>) -> (r: Option<(String, Option<i32>)>)
    ensures
        r is Some <==> text_at(row@, 0) is Some && (opt_int_at(row@, 1) matches Some(Some(_)))
            && opt_small_at(row@, 2) is Some,
        r matches Some(found) ==> text_at(row@, 0) == Some(found.0@) && opt_small_at(row@, 2)
            == Some(opt_small(found.1)),
{
    let task_id = get_text(row, 0)?;
    match get_opt_i64(row, 1) {
        Some(Some(_)) => {},
        _ => {
            return None;
        },
    }
    let minutes = get_opt_i32(row, 2)?;
    Some((task_id, minutes))
}

/// Whether every reminder of the list says that its task is due soon.
pub open spec fn well_worded(due: Seq<Reminder>) -> bool {
    forall|i: int| 0 <= i < due.len() ==> (#[trigger] due[i]).message@ == due[i].title@ + " is due soon"@
}

/// Writes the reminders of the task `task_id` into the schedule, as
/// [`reminder_times`] gives them. Nothing is scheduled for a task that is
/// completed, unknown or without a due time.
///
/// A failure to write the first reminder is reported; a failure to write one
/// of the repeated ones is passed over.
pub fn schedule_notification(db: &DbConnection, task_id: &str, reminder_minutes_before: Option<i32>) -> (r:
    Result<(), String>) {
    let mut lookup: Vec<SqlValue> = Vec::new();
    lookup.push(bind_text(task_id));
    let row = match first_row(
        &db.conn,
        "SELECT due_at, notification_repeat FROM tasks WHERE id = ?1 AND completed_at IS NULL",
        &lookup,
    ) {
        Ok(Some(row)) => row,
        _ => {
            return Ok(());
        },
    };
    let (due_at, repeat) = match schedule_facts(&row) {
        Some(facts) => facts,
        None => {
            return Ok(());
        },
    };
    let scheduled_at = now();
    let times = reminder_times(due_at, reminder_minutes_before, scheduled_at, repeat);
    let mut i: usize = 0;
    while i < times.len()
        invariant
            i <= times@.len(),
        decreases times@.len() - i,
    {
        let params = reminder_parameters(new_id(), task_id, times[i], scheduled_at);
        let written = execute_with(
            &db.conn,
            "INSERT INTO notification_schedule (id, task_id, scheduled_at, snooze_until, created_at)
                     VALUES (?1, ?2, ?3, ?4, ?5)",
            &params,
        );
        if i == 0 {
            if let Err(e) = written {
                return Err(describe_error("", &e));
            }
        }
        i += 1;
    }
    Ok(())
}

/// Keeps the reminder `notification_id` silent for the given number of
/// minutes from now.
pub fn snooze_notification(db: &DbConnection, notification_id: &str, snooze_duration_minutes: i32) -> (r:
    Result<(), String>) {
    let until = snooze_until(now(), snooze_duration_minutes);
    let mut params: Vec<SqlValue> = Vec::new();
    params.push(SqlValue::Integer(until));
    params.push(bind_text(notification_id));
    written(
        execute_with(
            &db.conn,
            "UPDATE notification_schedule SET snooze_until = ?1 WHERE id = ?2",
            &params,
        ),
        "",
    )
}

/// Whether a row of the due-reminder query can be read: the reminder's id,
/// the task's id and the task's title are texts.
pub open spec fn due_row_readable(row: Seq<Cell>) -> bool {
    text_at(row, 0) is Some && text_at(row, 1) is Some && text_at(row, 2) is Some
}

/// Reads a due reminder: the id under which it is scheduled, and what to
/// show.
pub fn due_from_row(row: &Vec<Cell>) -> (r: Option<(String, Reminder)>)
    ensures
        r is Some <==> due_row_readable(row@),
        r matches Some(found) ==> {
            &&& Some(found.0@) == text_at(row@, 0)
            &&& Some(found.1.task_id@) == text_at(row@, 1)
            &&& Some(found.1.title@) == text_at(row@, 2)
            &&& found.1.message@ == found.1.title@ + " is due soon"@
        },
{
    let id = get_text(row, 0)?;
    let task_id = get_text(row, 1)?;
    let title = get_text(row, 2)?;
    let message = reminder_message(title.as_str());
    Some((id, Reminder { task_id, title, message }))
}

/// Collects the reminders that are due and not snoozed, of tasks that are
/// not completed, removes them from the schedule and hands them back for
/// delivery. Rows that cannot be read are passed over, and so is a failure
/// to remove a reminder.
pub fn check_due_notifications(db: &DbConnection) -> (r: Result<Vec<Reminder>, String>)
    ensures
        r matches Ok(due) ==> well_worded(due@),
{
    let mut params: Vec<SqlValue> = Vec::new();
    params.push(SqlValue::Integer(now()));
    let rows = match query_rows(
        &db.conn,
        "SELECT ns.id, ns.task_id, t.title, t.completed_at
         FROM notification_schedule ns
         JOIN tasks t ON ns.task_id = t.id
         WHERE ns.scheduled_at <= ?1
           AND (ns.snooze_until IS NULL OR ns.snooze_until <= ?1)
           AND t.completed_at IS NULL",
        &params,
    ) {
        Ok(rows) => rows,
        Err(e) => {
            return Err(describe_error("", &e.cause));
        },
    };
    let mut due: Vec<Reminder> = Vec::new();
    let mut i: usize = 0;
    while i < rows.len()
        invariant
            i <= rows@.len(),
            due@.len() <= i,
            well_worded(due@),
        decreases rows@.len() - i,
    {
        if let Some((id, reminder)) = due_from_row(&rows[i]) {
            let mut sent: Vec<SqlValue> = Vec::new();
            sent.push(SqlValue::Text(id));
            let _ = execute_with(&db.conn, "DELETE FROM notification_schedule WHERE id = ?1", &sent);
            due.push(reminder);
        }
        i += 1;
    }
    Ok(due)
}

/// Collects the due reminders, as [`check_due_notifications`] does, and then
/// schedules reminders for every open task that has a due time and a
/// reminder setting but nothing in the schedule yet. The due reminders are
/// handed back for delivery.
pub fn check_and_schedule_notifications(db: &DbConnection) -> (r: Result<Vec<Reminder>, String>)
    ensures
        r matches Ok(due) ==> well_worded(due@),
{
    let due = check_due_notifications(db)?;
    let none: Vec<SqlValue> = Vec::new();
    let rows = match query_rows(
        &db.conn,
        "SELECT id, due_at, reminder_minutes_before
         FROM tasks
         WHERE due_at IS NOT NULL
           AND completed_at IS NULL
           AND reminder_minutes_before IS NOT NULL
           AND NOT EXISTS (
               SELECT 1 FROM notification_schedule ns
               WHERE ns.task_id = tasks.id
           )",
        &none,
    ) {
        Ok(rows) => rows,
        Err(e) => {
            return Err(describe_error("", &e.cause));
        },
    };
    let mut i: usize = 0;
    while i < rows.len()
        invariant
            i <= rows@.len(),
        decreases rows@.len() - i,
    {
        if let Some((task_id, minutes)) = reminder_candidate(&rows[i]) {
            let _ = schedule_notification(db, task_id.as_str(), minutes);
        }
        i += 1;
    }
    Ok(due)
}

} // verus!
