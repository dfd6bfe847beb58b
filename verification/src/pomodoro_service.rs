//! Pomodoro sessions: their records, the streak of days with a session, and
//! the counts that the statistics are made of.

use vstd::prelude::*;
use rusqlite::Connection;
use crate::clock::now;
use crate::ids::new_id;
use crate::rows::count_at;
use crate::rows::first_row;
use crate::rows::get_i32;
use crate::rows::get_i64;
use crate::rows::get_opt_i64;
use crate::rows::get_text;
use crate::rows::int_at;
use crate::rows::small_at;
use crate::rows::opt_int_at;
use crate::rows::opt_int;
use crate::rows::text_at;
use crate::rows::BAD_ROW;
use crate::error::describe_error;
use crate::error::written;
use crate::sqlite::execute_with;
use crate::sqlite::query_rows;
use crate::sqlite::Cell;
use crate::sqlite::Datum;
use crate::sqlite::SqlValue;
use crate::sqlite::values;
use crate::statement::append_clause;
use crate::statement::bind_flag;
use crate::statement::bind_i32;
use crate::statement::bind_opt_text;
use crate::statement::bind_text;
use crate::statement::clause;
use crate::statement::opt_param;
use crate::statement::push_opt;
use crate::statement::Statement;
use crate::tasks::assigned_int;
use crate::statement::text_or_null;
use crate::statement::flag;
use crate::rows::single_row;
use crate::rows::read_or;

verus! {

/// The record of one session.
#[derive(Debug)]
pub struct PomodoroSession {
    pub id: String,
    pub user_id: String,
    pub task_id: Option<String>,
    pub started_at: i64,
    pub completed_at: i64,
    pub duration_seconds: i32,
    pub mode: String,
    pub was_completed: bool,
    pub task_completed: bool,
    pub created_at: i64,
}

/// The sessions of one mode, counted.
#[derive(Debug)]
pub struct ModeStats {
    pub mode: String,
    pub count: i64,
    pub total_duration_minutes: i64,
}

/// The sessions of one day, counted.
#[derive(Debug)]
pub struct DailyPomodoroStats {
    pub date: String,
    pub session_count: i64,
    pub total_duration_minutes: i64,
    pub completed_count: i64,
}

/// The streak of days with a session.
#[derive(Debug)]
pub struct PomodoroStreak {
    pub current_streak: i32,
    pub longest_streak: i32,
    pub last_session_date: Option<i64>,
}

/// The sessions of a period, counted. The average length of a session is
/// the total of the minutes over the number of sessions; forming it is left
/// to the caller.
#[derive(Debug)]
pub struct PomodoroTotals {
    pub total_sessions: i64,
    pub total_duration_minutes: i64,
    pub completed_sessions: i64,
    pub sessions_by_mode: Vec<ModeStats>,
}

/// The number of the day of `time`, counted from the epoch, rounding towards
/// it.
pub open spec fn day_number(time: int) -> int {
    if time >= 0 {
        time / 86400
    } else {
        -((-time) / 86400)
    }
}

/// The number of the day of `time`.
pub fn day_index(time: i64) -> (day: i64)
    ensures
        day == day_number(time as int),
{
    let wide: i128 = time as i128;
    if wide >= 0 {
        (wide / 86400) as i64
    } else {
        let back: i128 = -wide;
        (-(back / 86400)) as i64
    }
}

/// The streak after a session at `session_date`, as the pair of the current
/// and the longest streak. `record` is what was on record before: the
/// current streak, the longest, and the time of the last session.
///
/// Without a record, or without a last session, both are 1. A session on the
/// day of the last one leaves the current streak; one on the day after adds
/// a day to it (never beyond the range of `i32`); any other starts again at
/// 1. The longest streak is the larger of what it was and the current one.
pub open spec fn streak_after_session(record: Option<(i32, i32, Option<i64>)>, session_date: int) -> (
    int,
    int,
) {
    match record {
        Some((current, longest, Some(last))) => {
            let apart = day_number(session_date) - day_number(last as int);
            let next = if apart == 0 {
                current as int
            } else if apart == 1 {
                if current == i32::MAX {
                    current as int
                } else {
                    current + 1
                }
            } else {
                1
            };
            (
                next,
                if next > longest {
                    next
                } else {
                    longest as int
                },
            )
        },
        _ => (1, 1),
    }
}

/// The streak after a session at `session_date`.
pub fn next_streak(record: Option<(i32, i32, Option<i64>)>, session_date: i64) -> (r: (i32, i32))
    ensures
        (r.0 as int, r.1 as int) == streak_after_session(record, session_date as int),
{
    match record {
        Some((current, longest, Some(last))) => {
            let apart: i128 = day_index(session_date) as i128 - day_index(last) as i128;
            let next = if apart == 0 {
                current
            } else if apart == 1 {
                if current == i32::MAX {
                    current
                } else {
                    current + 1
                }
            } else {
                1
            };
            (
                next,
                if next > longest {
                    next
                } else {
                    longest
                },
            )
        },
        _ => (1, 1),
    }
}

/// The counts per mode read from `rows`, or the message for the first row that
/// cannot be read.
pub fn modes_from_rows(rows: &Vec<Vec<Cell>>) -> (r: Result<Vec<ModeStats>, String>)
    ensures
        r is Ok <==> forall|i: int| 0 <= i < rows@.len() ==> mode_row_readable(#[trigger] rows@[i]@),
        r matches Ok(list) ==> list@.len() == rows@.len(),
        r matches Err(message) ==> message@ == BAD_ROW@,
{
    let mut list: Vec<ModeStats> = Vec::new();
    let mut i: usize = 0;
    while i < rows.len()
        invariant
            i <= rows@.len(),
            list@.len() == i,
            forall|j: int| 0 <= j < i ==> mode_row_readable(#[trigger] rows@[j]@),
        decreases rows@.len() - i,
    {
        match mode_from_row(&rows[i]) {
            Some(found) => list.push(found),
            None => {
                return Err(BAD_ROW.to_string());
            },
        }
        i += 1;
    }
    Ok(list)
}

/// The counts per day read from `rows`, or the message for the first row that
/// cannot be read.
pub fn daily_from_rows(rows: &Vec<Vec<Cell>>) -> (r: Result<Vec<DailyPomodoroStats>, String>)
    ensures
        r is Ok <==> forall|i: int| 0 <= i < rows@.len() ==> daily_row_readable(#[trigger] rows@[i]@),
        r matches Ok(list) ==> list@.len() == rows@.len(),
        r matches Err(message) ==> message@ == BAD_ROW@,
{
    let mut list: Vec<DailyPomodoroStats> = Vec::new();
    let mut i: usize = 0;
    while i < rows.len()
        invariant
            i <= rows@.len(),
            list@.len() == i,
            forall|j: int| 0 <= j < i ==> daily_row_readable(#[trigger] rows@[j]@),
        decreases rows@.len() - i,
    {
        match daily_from_row(&rows[i]) {
            Some(found) => list.push(found),
            None => {
                return Err(BAD_ROW.to_string());
            },
        }
        i += 1;
    }
    Ok(list)
}

/// What is on record of the streak, read from a row of the columns
/// current_streak, longest_streak, last_session_date: the two streaks must
/// be 32-bit integers, the time an integer or `NULL`.
pub fn streak_record(row: &Vec<Cell>) -> (r: Option<(i32, i32, Option<i64>)>)
    ensures
        r is Some <==> small_at(row@, 0) is Some && small_at(row@, 1) is Some && opt_int_at(row@, 2)
            is Some,
        r matches Some(record) ==> {
            &&& small_at(row@, 0) == Some(record.0 as int)
            &&& small_at(row@, 1) == Some(record.1 as int)
            &&& opt_int_at(row@, 2) == Some(opt_int(record.2))
        },
{
    let current = get_i32(row, 0)?;
    let longest = get_i32(row, 1)?;
    let last = get_opt_i64(row, 2)?;
    Some((current, longest, last))
}

/// The totals of a period, from the row of the counting query (sessions,
/// seconds, completed sessions; a column that cannot be read counts as 0)
/// and the counts per mode.
pub fn totals_from(row: &Vec<Cell>, sessions_by_mode: Vec<ModeStats>) -> (totals: PomodoroTotals)
    ensures
        totals.total_sessions == match int_at(row@, 0) {
            Some(n) => n,
            None => 0,
        },
        totals.total_duration_minutes == whole_minutes(
            match int_at(row@, 1) {
                Some(n) => n,
                None => 0,
            },
        ),
        totals.completed_sessions == match int_at(row@, 2) {
            Some(n) => n,
            None => 0,
        },
        totals.sessions_by_mode == sessions_by_mode,
{
    PomodoroTotals {
        total_sessions: count_at(row, 0),
        total_duration_minutes: minutes_of(count_at(row, 1)),
        completed_sessions: count_at(row, 2),
        sessions_by_mode,
    }
}

/// Brings the streak of the default user up to date after a session at
/// `session_date` and stores it.
pub fn update_streak(conn: &Connection, session_date: i64) -> (r: Result<(), String>) {
    let mut lookup: Vec<SqlValue> = Vec::new();
    lookup.push(bind_text("default"));
    let record = match first_row(
        conn,
        "SELECT current_streak, longest_streak, last_session_date FROM pomodoro_streaks WHERE user_id = ?1",
        &lookup,
    ) {
        Ok(Some(row)) => streak_record(&row),
        Ok(None) => None,
        Err(e) => {
            return Err(describe_error("", &e));
        },
    };
    let (current, longest) = next_streak(record, session_date);
    let created = now();
    let params = streak_parameters(current, longest, session_date, created, now());
    written(
        execute_with(
            conn,
            "INSERT OR REPLACE INTO pomodoro_streaks (id, user_id, current_streak, longest_streak, last_session_date, created_at, updated_at)
         VALUES (?1, ?2, ?3, ?4, ?5, COALESCE((SELECT created_at FROM pomodoro_streaks WHERE user_id = ?2), ?6), ?7)",
            &params,
        ),
        "",
    )
}

/// The values bound to the insert of a session, in the order of its fields.
pub open spec fn session_values(session: PomodoroSession) -> Seq<Datum> {
    seq![
        Datum::Text(session.id@),
        Datum::Text(session.user_id@),
        text_or_null(session.task_id),
        Datum::Integer(session.started_at as int),
        Datum::Integer(session.completed_at as int),
        Datum::Integer(session.duration_seconds as int),
        Datum::Text(session.mode@),
        flag(session.was_completed),
        flag(session.task_completed),
        Datum::Integer(session.created_at as int)
    ]
}

/// The values bound to the insert of a session.
pub fn session_parameters(session: &PomodoroSession) -> (params: Vec<SqlValue>)
    ensures
        values(params@) == session_values(*session),
{
    let mut params: Vec<SqlValue> = Vec::new();
    params.push(bind_text(session.id.as_str()));
    params.push(bind_text(session.user_id.as_str()));
    params.push(bind_opt_text(&session.task_id));
    params.push(SqlValue::Integer(session.started_at));
    params.push(SqlValue::Integer(session.completed_at));
    params.push(bind_i32(session.duration_seconds));
    params.push(bind_text(session.mode.as_str()));
    params.push(bind_flag(session.was_completed));
    params.push(bind_flag(session.task_completed));
    params.push(SqlValue::Integer(session.created_at));
    assert(values(params@) =~= session_values(*session));
    params
}

/// The values bound to the write of a streak: the default user as id and as
/// user, the streak and the longest streak, the day of the last session, and
/// the time of creation (used where the user had no streak yet) and of the
/// last change.
pub open spec fn streak_values(
    current: int,
    longest: int,
    session_date: int,
    created: int,
    updated: int,
) -> Seq<Datum> {
    seq![
        Datum::Text("default"@),
        Datum::Text("default"@),
        Datum::Integer(current),
        Datum::Integer(longest),
        Datum::Integer(session_date),
        Datum::Integer(created),
        Datum::Integer(updated)
    ]
}

/// The values bound to the write of a streak.
pub fn streak_parameters(
    current: i32,
    longest: i32,
    session_date: i64,
    created: i64,
    updated: i64,
) -> (params: Vec<SqlValue>)
    ensures
        values(params@) == streak_values(
            current as int,
            longest as int,
            session_date as int,
            created as int,
            updated as int,
        ),
{
    let mut params: Vec<SqlValue> = Vec::new();
    params.push(bind_text("default"));
    params.push(bind_text("default"));
    params.push(bind_i32(current));
    params.push(bind_i32(longest));
    params.push(SqlValue::Integer(session_date));
    params.push(SqlValue::Integer(created));
    params.push(SqlValue::Integer(updated));
    assert(values(params@) =~= streak_values(
        current as int,
        longest as int,
        session_date as int,
        created as int,
        updated as int,
    ));
    params
}

/// Records a session of the default user and brings the streak up to date.
/// The record handed back holds what was given, a fresh id and the time of
/// the recording.
pub fn create_pomodoro_session(
    conn: &Connection,
    task_id: Option<String>,
    started_at: i64,
    completed_at: i64,
    duration_seconds: i32,
    mode: String,
    was_completed: bool,
    task_completed: bool,
) -> (r: Result<PomodoroSession, String>)
    ensures
        r matches Ok(session) ==> {
            &&& session.user_id@ == "default"@
            &&& session.task_id == task_id
            &&& session.started_at == started_at
            &&& session.completed_at == completed_at
            &&& session.duration_seconds == duration_seconds
            &&& session.mode == mode
            &&& session.was_completed == was_completed
            &&& session.task_completed == task_completed
        },
{
    let session = PomodoroSession {
        id: new_id(),
        user_id: "default".to_string(),
        task_id,
        started_at,
        completed_at,
        duration_seconds,
        mode,
        was_completed,
        task_completed,
        created_at: now(),
    };
    let params = session_parameters(&session);
    if let Err(e) = execute_with(
        conn,
        "INSERT INTO pomodoro_sessions (id, user_id, task_id, started_at, completed_at, duration_seconds, mode, was_completed, task_completed, created_at)
         VALUES (?1, ?2, ?3, ?4, ?5, ?6, ?7, ?8, ?9, ?10)",
        &params,
    ) {
        return Err(describe_error("", &e));
    }
    update_streak(conn, completed_at)?;
    Ok(session)
}

/// The text of a statistics query over the sessions of the default user:
/// `head`, a condition for each end of the period that is set, and `tail`.
pub open spec fn period_sql(
    head: Seq<char>,
    start_date: Option<i64>,
    end_date: Option<i64>,
    tail: Seq<char>,
) -> Seq<char> {
    head + clause(start_date is Some, " AND completed_at >= ?"@) + clause(
        end_date is Some,
        " AND completed_at <= ?"@,
    ) + tail
}

/// The values bound to a statistics query: the default user, and the ends of
/// the period that are set.
pub open spec fn period_params(start_date: Option<i64>, end_date: Option<i64>) -> Seq<Datum> {
    seq![Datum::Text("default"@)] + opt_param(assigned_int(start_date)) + opt_param(
        assigned_int(end_date),
    )
}

/// Builds a statistics query over the sessions of the default user in a
/// period.
pub fn period_query(head: &str, start_date: Option<i64>, end_date: Option<i64>, tail: &str) -> (s:
    Statement)
    ensures
        s@.sql == period_sql(head@, start_date, end_date, tail@),
        s@.params == period_params(start_date, end_date),
{
    let mut sql = head.to_string();
    append_clause(&mut sql, start_date.is_some(), " AND completed_at >= ?");
    append_clause(&mut sql, end_date.is_some(), " AND completed_at <= ?");
    append_clause(&mut sql, true, tail);
    let mut params: Vec<SqlValue> = Vec::new();
    params.push(bind_text("default"));
    assert(values(params@) =~= seq![Datum::Text("default"@)]);
    push_opt(
        &mut params,
        match start_date {
            Some(t) => Some(SqlValue::Integer(t)),
            None => None,
        },
    );
    push_opt(
        &mut params,
        match end_date {
            Some(t) => Some(SqlValue::Integer(t)),
            None => None,
        },
    );
    Statement { sql, params }
}

/// Whole minutes in a number of seconds, rounding towards zero.
pub open spec fn whole_minutes(seconds: int) -> int {
    if seconds >= 0 {
        seconds / 60
    } else {
        -((-seconds) / 60)
    }
}

/// Whole minutes in a number of seconds.
pub fn minutes_of(seconds: i64) -> (minutes: i64)
    ensures
        minutes == whole_minutes(seconds as int),
{
    let wide: i128 = seconds as i128;
    if wide >= 0 {
        (wide / 60) as i64
    } else {
        let back: i128 = -wide;
        (-(back / 60)) as i64
    }
}

/// Whether a row of the per-mode query can be read.
pub open spec fn mode_row_readable(row: Seq<Cell>) -> bool {
    text_at(row, 0) is Some && int_at(row, 1) is Some && int_at(row, 2) is Some
}

/// Reads the counts of one mode from a row of the columns mode, count,
/// seconds.
pub fn mode_from_row(row: &Vec<Cell>) -> (r: Option<ModeStats>)
    ensures
        r is Some <==> mode_row_readable(row@),
        r matches Some(m) ==> {
            &&& Some(m.mode@) == text_at(row@, 0)
            &&& Some(m.count as int) == int_at(row@, 1)
            &&& m.total_duration_minutes == whole_minutes(int_at(row@, 2)->0)
        },
{
    let mode = get_text(row, 0)?;
    let count = get_i64(row, 1)?;
    let seconds = get_i64(row, 2)?;
    Some(ModeStats { mode, count, total_duration_minutes: minutes_of(seconds) })
}

/// The sessions of the default user in a period, counted as a whole and by
/// mode.
pub fn pomodoro_totals(conn: &Connection, start_date: Option<i64>, end_date: Option<i64>) -> (r:
    Result<PomodoroTotals, String>) {
    let whole = period_query(
        "SELECT COUNT(*), SUM(duration_seconds), SUM(CASE WHEN was_completed THEN 1 ELSE 0 END) FROM pomodoro_sessions WHERE user_id = ?1",
        start_date,
        end_date,
        "",
    );
    let row = single_row(first_row(conn, whole.sql.as_str(), &whole.params), "")?;
    let by_mode = period_query(
        "SELECT mode, COUNT(*), SUM(duration_seconds) FROM pomodoro_sessions WHERE user_id = ?1",
        start_date,
        end_date,
        " GROUP BY mode",
    );
    let rows = match query_rows(conn, by_mode.sql.as_str(), &by_mode.params) {
        Ok(rows) => rows,
        Err(e) => {
            return Err(describe_error("", &e.cause));
        },
    };
    Ok(totals_from(&row, modes_from_rows(&rows)?))
}

/// Whether a row of the per-day query can be read.
pub open spec fn daily_row_readable(row: Seq<Cell>) -> bool {
    &&& text_at(row, 0) is Some
    &&& int_at(row, 1) is Some
    &&& int_at(row, 2) is Some
    &&& int_at(row, 3) is Some
}

/// Reads the counts of one day from a row of the columns date, sessions,
/// minutes, completed.
pub fn daily_from_row(row: &Vec<Cell>) -> (r: Option<DailyPomodoroStats>)
    ensures
        r is Some <==> daily_row_readable(row@),
        r matches Some(d) ==> {
            &&& Some(d.date@) == text_at(row@, 0)
            &&& Some(d.session_count as int) == int_at(row@, 1)
            &&& Some(d.total_duration_minutes as int) == int_at(row@, 2)
            &&& Some(d.completed_count as int) == int_at(row@, 3)
        },
{
    let date = get_text(row, 0)?;
    let session_count = get_i64(row, 1)?;
    let total_duration_minutes = get_i64(row, 2)?;
    let completed_count = get_i64(row, 3)?;
    Some(DailyPomodoroStats { date, session_count, total_duration_minutes, completed_count })
}

/// The sessions of the default user between the two times, counted by day.
pub fn get_daily_stats(conn: &Connection, start_date: i64, end_date: i64) -> (r: Result<
    Vec<DailyPomodoroStats>,
    String,
>) {
    let mut params: Vec<SqlValue> = Vec::new();
    params.push(bind_text("default"));
    params.push(SqlValue::Integer(start_date));
    params.push(SqlValue::Integer(end_date));
    let rows = match query_rows(
        conn,
        "SELECT DATE(completed_at, 'unixepoch') as date, 
                COUNT(*) as session_count,
                SUM(duration_seconds) / 60 as total_duration_minutes,
                SUM(CASE WHEN was_completed THEN 1 ELSE 0 END) as completed_count
         FROM pomodoro_sessions
         WHERE user_id = ?1 AND completed_at >= ?2 AND completed_at <= ?3
         GROUP BY date
         ORDER BY date",
        &params,
    ) {
        Ok(rows) => rows,
        Err(e) => {
            return Err(describe_error("", &e.cause));
        },
    };
    daily_from_rows(&rows)
}

/// The streak of the default user, as it is on record.
pub fn get_pomodoro_streak(conn: &Connection) -> (r: Result<PomodoroStreak, String>) {
    let mut params: Vec<SqlValue> = Vec::new();
    params.push(bind_text("default"));
    let row = single_row(
        first_row(
            conn,
            "SELECT current_streak, longest_streak, last_session_date 
         FROM pomodoro_streaks 
         WHERE user_id = ?1",
            &params,
        ),
        "",
    )?;
    let (current_streak, longest_streak, last_session_date) = read_or(streak_record(&row), "")?;
    Ok(PomodoroStreak { current_streak, longest_streak, last_session_date })
}

} // verus!
