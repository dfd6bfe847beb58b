//! Experience points, levels, streaks and badges.

use vstd::prelude::*;
use crate::text::begins_with;
use crate::error::listing_failure;
use crate::clock::now;
use crate::db::DbConnection;
use crate::ids::new_id;
use crate::rows::get_i32;
use crate::rows::get_i64;
use crate::rows::get_opt_i64;
use crate::rows::get_opt_text;
use crate::rows::get_text;
use crate::rows::int_at;
use crate::rows::opt_int;
use crate::rows::opt_int_at;
use crate::rows::opt_text_at;
use crate::rows::opt_view;
use crate::rows::small_at;
use crate::rows::text_at;
use crate::numbers::clamped;
use crate::numbers::shift;
use crate::error::describe_error;
use crate::error::listing_error;
use crate::error::written;
use crate::sqlite::execute_with;
use crate::sqlite::query_rows;
use crate::sqlite::Cell;
use crate::sqlite::SqlValue;
use crate::statement::bind_opt_i64;
use crate::statement::bind_opt_text;
use crate::text::contains_name;
use crate::text::texts;
use rusqlite::Connection;

verus! {

/// The user's standing.
#[derive(Debug, Clone)]
pub struct UserProgress {
    pub id: String,
    pub total_xp: i64,
    pub current_level: i32,
    pub current_streak: i32,
    pub longest_streak: i32,
    pub last_completion_date: Option<i64>,
    pub created_at: i64,
    pub updated_at: i64,
}

/// A badge that the user has earned.
#[derive(Debug, Clone)]
pub struct Badge {
    pub id: String,
    pub user_id: String,
    pub badge_type: String,
    pub earned_at: i64,
    pub metadata: Option<String>,
}

/// One grant of experience.
#[derive(Debug, Clone)]
pub struct XpHistoryEntry {
    pub id: String,
    pub user_id: String,
    pub xp_amount: i32,
    pub source: String,
    pub task_id: Option<String>,
    pub created_at: i64,
}

/// The user's standing after experience was granted or revoked.
#[derive(Debug)]
pub struct GrantXpResult {
    pub level_up: bool,
    pub new_level: i32,
    pub total_xp: i64,
    pub current_xp: i64,
    pub xp_to_next_level: i64,
}

/// Whether `level` is the level of a user with `total_xp` points: level 1
/// without points, and with points one more than the whole part of the square
/// root of a hundredth of them.
pub open spec fn is_level_of(level: int, total_xp: int) -> bool {
    if total_xp <= 0 {
        level == 1
    } else {
        level >= 1 && (level - 1) * (level - 1) <= total_xp / 100 < level * level
    }
}

/// The level of a user with `total_xp` points.
pub fn calculate_level(total_xp: i64) -> (level: i32)
    ensures
        is_level_of(level as int, total_xp as int),
{
    if total_xp <= 0 {
        return 1;
    }
    let hundredths: i64 = total_xp / 100;
    let mut low: i64 = 0;
    let mut high: i64 = 303700050;
    assert(0 <= hundredths <= 92233720368547758);
    assert(high * high > hundredths) by (nonlinear_arith)
        requires
            high == 303700050,
            hundredths <= 92233720368547758,
    ;
    assert(low * low <= hundredths) by (nonlinear_arith)
        requires
            low == 0,
            hundredths >= 0,
    ;
    while high - low > 1
        invariant
            0 <= low < high <= 303700050,
            low * low <= hundredths < high * high,
        decreases high - low,
    {
        let middle: i64 = low + (high - low) / 2;
        assert(0 <= middle * middle <= 303700050 * 303700050) by (nonlinear_arith)
            requires
                0 <= middle <= 303700050,
        ;
        if middle * middle <= hundredths {
            low = middle;
        } else {
            high = middle;
        }
    }
    assert(high == low + 1);
    (low + 1) as i32
}

/// Experience needed to complete a level: one hundred times the square of the level.
pub open spec fn xp_to_next_level(level: int) -> int {
    100 * level * level
}

/// Experience that has to be earned inside `level` before the next one is
/// reached, held inside the range of `i64`.
pub fn calculate_xp_to_next_level(level: i32) -> (xp: i64)
    ensures
        xp == clamped(xp_to_next_level(level as int)),
{
    let wide: i128 = level as i128;
    assert(0 <= wide * wide <= 2147483648 * 2147483648) by (nonlinear_arith)
        requires
            -2147483648 <= wide <= 2147483647,
    ;
    assert(100 * wide * wide == 100 * (wide * wide)) by (nonlinear_arith);
    let needed: i128 = 100 * (wide * wide);
    if needed > 0x7fff_ffff_ffff_ffffi128 {
        i64::MAX
    } else {
        needed as i64
    }
}

/// The experience of all levels below `level`, added up.
pub open spec fn xp_below(level: int) -> int
    decreases level,
{
    if level <= 1 {
        0
    } else {
        xp_below(level - 1) + xp_to_next_level(level - 1)
    }
}

/// The experience counted towards `level` for a user with `total_xp` points:
/// the points less the experience of all levels below, held inside the range
/// of `i64`.
pub open spec fn current_xp(total_xp: int, level: int) -> int {
    clamped(total_xp - xp_below(level))
}

/// The sum of the experience of the levels below `level` grows with the
/// level and stays below a hundred times its cube.
proof fn lemma_xp_below_bounds(level: int)
    requires
        level >= 1,
    ensures
        0 <= xp_below(level) <= 100 * level * level * level,
    decreases level,
{
    if level > 1 {
        lemma_xp_below_bounds(level - 1);
        assert(100 * (level - 1) * (level - 1) * (level - 1) + 100 * (level - 1) * (level - 1) <= 100
            * level * level * level) by (nonlinear_arith)
            requires
                level > 1,
        ;
        assert(100 * (level - 1) * (level - 1) >= 0) by (nonlinear_arith);
    }
}

/// The experience counted towards `level` for a user with `total_xp` points.
pub fn calculate_current_xp(total_xp: i64, level: i32) -> (xp: i64)
    ensures
        xp == current_xp(total_xp as int, level as int),
{
    if level <= 1 {
        return total_xp;
    }
    let mut below: i128 = 0;
    let mut i: i32 = 1;
    while i < level
        invariant
            1 <= i <= level,
            below == xp_below(i as int),
        decreases level - i,
    {
        proof {
            lemma_xp_below_bounds(i as int);
            lemma_xp_below_bounds(i + 1);
            assert(100 * i * i * i <= 100 * 2147483647 * 2147483647 * 2147483647) by (nonlinear_arith)
                requires
                    1 <= i <= 2147483647,
            ;
            assert(0 <= 100 * i * i <= 100 * 2147483647 * 2147483647) by (nonlinear_arith)
                requires
                    1 <= i <= 2147483647,
            ;
            assert(100 * i * i == 100 * (i * i)) by (nonlinear_arith);
            assert(0 <= i * i <= 2147483647 * 2147483647) by (nonlinear_arith)
                requires
                    1 <= i <= 2147483647,
            ;
        }
        let wide: i128 = i as i128;
        below = below + 100 * (wide * wide);
        i = i + 1;
    }
    proof {
        lemma_xp_below_bounds(level as int);
        assert(100 * level * level * level <= 100 * 2147483647 * 2147483647 * 2147483647)
            by (nonlinear_arith)
            requires
                1 <= level <= 2147483647,
        ;
    }
    let rest: i128 = total_xp as i128 - below;
    if rest > 0x7fff_ffff_ffff_ffffi128 {
        i64::MAX
    } else if rest < -0x8000_0000_0000_0000i128 {
        i64::MIN
    } else {
        rest as i64
    }
}

/// The points of a user who had `total_xp` and gains `delta` (or loses, where
/// it is negative): never below 0, never beyond the range of `i64`.
pub open spec fn total_after(total_xp: int, delta: int) -> int {
    if clamped(total_xp + delta) < 0 {
        0
    } else {
        clamped(total_xp + delta)
    }
}

/// The user's standing after `delta` points were added to `total_xp`. A level
/// is only announced as gained where `announce` is set: a revocation never
/// announces one.
pub fn standing_after(total_xp: i64, previous_level: i32, delta: i64, announce: bool) -> (r:
    GrantXpResult)
    ensures
        r.total_xp == total_after(total_xp as int, delta as int),
        is_level_of(r.new_level as int, r.total_xp as int),
        r.xp_to_next_level == clamped(xp_to_next_level(r.new_level as int)),
        r.current_xp == current_xp(r.total_xp as int, r.new_level as int),
        r.level_up == (announce && r.new_level > previous_level),
{
    let moved = shift(total_xp, delta);
    let new_total = if moved < 0 {
        0
    } else {
        moved
    };
    let new_level = calculate_level(new_total);
    GrantXpResult {
        level_up: announce && new_level > previous_level,
        new_level,
        total_xp: new_total,
        current_xp: calculate_current_xp(new_total, new_level),
        xp_to_next_level: calculate_xp_to_next_level(new_level),
    }
}

/// The start of the day of `time`: `time` less what is left when it is
/// divided by the seconds of a day, rounding towards the epoch.
pub open spec fn day_start(time: int) -> int {
    if time >= 0 {
        (time / 86400) * 86400
    } else {
        -(((-time) / 86400) * 86400)
    }
}

/// The start of the day of `time`.
pub fn day_of(time: i64) -> (start: i64)
    ensures
        start == day_start(time as int),
{
    let wide: i128 = time as i128;
    if wide >= 0 {
        ((wide / 86400) * 86400) as i64
    } else {
        let back: i128 = -wide;
        (-((back / 86400) * 86400)) as i64
    }
}

/// The streak that follows `current` when a task was completed on the day
/// that starts at `today`, the last completion before it being `last`:
/// one more where that was the day before (never beyond the range of `i32`),
/// a new streak of 1 where it was earlier or never, and no change where it
/// was today.
pub open spec fn streak_after(current: int, last: Option<int>, today: int) -> int {
    match last {
        Some(time) => if day_start(time) == today - 86400 {
            if current + 1 > i32::MAX {
                i32::MAX as int
            } else {
                current + 1
            }
        } else if day_start(time) < today - 86400 {
            1
        } else {
            current
        },
        None => 1,
    }
}

/// The user's standing after the streak was brought up to date at
/// `current_time`. Where no task was completed today nothing changes. Where
/// one was, the streak moves as [`streak_after`] says, the longest streak
/// follows it, and the day is noted as the last day of completion.
pub fn advance_streak(progress: UserProgress, current_time: i64, completed_today: bool) -> (r:
    UserProgress)
    ensures
        r.id == progress.id,
        r.total_xp == progress.total_xp,
        r.current_level == progress.current_level,
        r.created_at == progress.created_at,
        r.updated_at == progress.updated_at,
        !completed_today ==> r.current_streak == progress.current_streak && r.longest_streak
            == progress.longest_streak && r.last_completion_date == progress.last_completion_date,
        completed_today ==> {
            &&& r.current_streak == streak_after(
                progress.current_streak as int,
                opt_int(progress.last_completion_date),
                day_start(current_time as int),
            )
            &&& r.longest_streak == if r.current_streak > progress.longest_streak {
                r.current_streak
            } else {
                progress.longest_streak
            }
            &&& opt_int(r.last_completion_date) == Some(day_start(current_time as int))
        },
{
    if !completed_today {
        return progress;
    }
    let today = day_of(current_time);
    let mut progress = progress;
    let yesterday: i128 = today as i128 - 86400;
    match progress.last_completion_date {
        Some(last) => {
            let last_day: i128 = day_of(last) as i128;
            if last_day == yesterday {
                if progress.current_streak < i32::MAX {
                    progress.current_streak = progress.current_streak + 1;
                }
            } else if last_day < yesterday {
                progress.current_streak = 1;
            }
        },
        None => {
            progress.current_streak = 1;
        },
    }
    if progress.current_streak > progress.longest_streak {
        progress.longest_streak = progress.current_streak;
    }
    progress.last_completion_date = Some(today);
    progress
}

/// A badge that can be earned.
#[derive(Clone, Copy, Debug, PartialEq, Eq, Structural)]
pub enum BadgeKind {
    /// The first task was completed.
    FirstTask,
    /// A hundred tasks were completed.
    TaskMaster100,
    /// The streak stands at seven days.
    WeekWarrior,
    /// Level ten is reached.
    Level10,
}

impl BadgeKind {
    /// The name under which the badge is stored.
    pub open spec fn name_spec(self) -> Seq<char> {
        match self {
            BadgeKind::FirstTask => "first_task"@,
            BadgeKind::TaskMaster100 => "task_master_100"@,
            BadgeKind::WeekWarrior => "week_warrior"@,
            BadgeKind::Level10 => "level_10"@,
        }
    }

    /// The name under which the badge is stored.
    pub fn name(self) -> (n: &'static str)
        ensures
            n@ == self.name_spec(),
    {
        match self {
            BadgeKind::FirstTask => "first_task",
            BadgeKind::TaskMaster100 => "task_master_100",
            BadgeKind::WeekWarrior => "week_warrior",
            BadgeKind::Level10 => "level_10",
        }
    }

    /// Whether the badge is earned by a user who has completed `completed`
    /// tasks, whose streak is `streak` and whose level is `level`.
    pub open spec fn earned_by(self, completed: int, streak: int, level: int) -> bool {
        match self {
            BadgeKind::FirstTask => completed >= 1,
            BadgeKind::TaskMaster100 => completed >= 100,
            BadgeKind::WeekWarrior => streak == 7,
            BadgeKind::Level10 => level == 10,
        }
    }

    /// The note stored with the badge: what it was earned for, as JSON.
    pub open spec fn metadata_spec(self) -> Seq<char> {
        match self {
            BadgeKind::FirstTask => crate::json::json_number_entry("milestone"@, 1),
            BadgeKind::TaskMaster100 => crate::json::json_number_entry("milestone"@, 100),
            BadgeKind::WeekWarrior => crate::json::json_number_entry("streak"@, 7),
            BadgeKind::Level10 => crate::json::json_number_entry("level"@, 10),
        }
    }

    /// The note stored with the badge.
    pub fn metadata(self) -> (text: String)
        ensures
            text@ == self.metadata_spec(),
    {
        match self {
            BadgeKind::FirstTask => crate::json::number_entry("milestone", 1),
            BadgeKind::TaskMaster100 => crate::json::number_entry("milestone", 100),
            BadgeKind::WeekWarrior => crate::json::number_entry("streak", 7),
            BadgeKind::Level10 => crate::json::number_entry("level", 10),
        }
    }
}

/// The badge, where it is earned and not among `held`; nothing otherwise.
pub open spec fn badge_if_due(
    kind: BadgeKind,
    completed: int,
    streak: int,
    level: int,
    held: Seq<Seq<char>>,
) -> Seq<BadgeKind> {
    if kind.earned_by(completed, streak, level) && !held.contains(kind.name_spec()) {
        seq![kind]
    } else {
        Seq::empty()
    }
}

/// The badges to award: those that are earned and not held yet, in the order
/// first task, hundred tasks, week streak, level ten.
pub open spec fn badges_due(completed: int, streak: int, level: int, held: Seq<Seq<char>>) -> Seq<
    BadgeKind,
> {
    Seq::<BadgeKind>::empty() + badge_if_due(BadgeKind::FirstTask, completed, streak, level, held)
        + badge_if_due(BadgeKind::TaskMaster100, completed, streak, level, held) + badge_if_due(
        BadgeKind::WeekWarrior,
        completed,
        streak,
        level,
        held,
    ) + badge_if_due(BadgeKind::Level10, completed, streak, level, held)
}

/// Appends `kind` to `due` where it is earned and not held.
fn push_if_due(
    due: &mut Vec<BadgeKind>,
    kind: BadgeKind,
    completed: i64,
    streak: i32,
    level: i32,
    held: &Vec<String>,
)
    ensures
        final(due)@ == old(due)@ + badge_if_due(
            kind,
            completed as int,
            streak as int,
            level as int,
            texts(held@),
        ),
{
    let earned = match kind {
        BadgeKind::FirstTask => completed >= 1,
        BadgeKind::TaskMaster100 => completed >= 100,
        BadgeKind::WeekWarrior => streak == 7,
        BadgeKind::Level10 => level == 10,
    };
    if earned && !contains_name(held, kind.name()) {
        due.push(kind);
        assert(due@ =~= old(due)@ + seq![kind]);
    } else {
        assert(due@ + Seq::<BadgeKind>::empty() =~= due@);
    }
}

/// The badges to award to a user who has completed `completed` tasks, whose
/// streak is `streak`, whose level is `level` and who holds the badges named
/// in `held`.
pub fn plan_badges(completed: i64, streak: i32, level: i32, held: &Vec<String>) -> (due: Vec<
    BadgeKind,
>)
    ensures
        due@ == badges_due(completed as int, streak as int, level as int, texts(held@)),
{
    let mut due: Vec<BadgeKind> = Vec::new();
    assert(due@ =~= Seq::<BadgeKind>::empty());
    push_if_due(&mut due, BadgeKind::FirstTask, completed, streak, level, held);
    push_if_due(&mut due, BadgeKind::TaskMaster100, completed, streak, level, held);
    push_if_due(&mut due, BadgeKind::WeekWarrior, completed, streak, level, held);
    push_if_due(&mut due, BadgeKind::Level10, completed, streak, level, held);
    due
}

/// The experience granted for completing a task of the given priority.
pub open spec fn completion_xp_spec(priority: Seq<char>) -> int {
    if priority == "low"@ {
        10
    } else if priority == "high"@ {
        50
    } else {
        25
    }
}

/// The experience granted for completing a task of the given priority: 10
/// for `low`, 50 for `high`, 25 for `medium` and for anything else.
pub fn completion_xp(priority: &str) -> (xp: i32)
    ensures
        xp == completion_xp_spec(priority@),
{
    if crate::text::str_eq(priority, "low") {
        10
    } else if crate::text::str_eq(priority, "high") {
        50
    } else {
        25
    }
}

/// Stores the badge of the first completed task.
pub const INSERT_FIRST_TASK: &'static str =
    "INSERT INTO badges (id, user_id, badge_type, earned_at, metadata) VALUES (?1, 'default', 'first_task', ?2, ?3)";

/// Stores the badge of a hundred completed tasks.
pub const INSERT_TASK_MASTER_100: &'static str =
    "INSERT INTO badges (id, user_id, badge_type, earned_at, metadata) VALUES (?1, 'default', 'task_master_100', ?2, ?3)";

/// Stores the badge of a streak of seven days.
pub const INSERT_WEEK_WARRIOR: &'static str =
    "INSERT INTO badges (id, user_id, badge_type, earned_at, metadata) VALUES (?1, 'default', 'week_warrior', ?2, ?3)";

/// Stores the badge of level ten.
pub const INSERT_LEVEL_10: &'static str =
    "INSERT INTO badges (id, user_id, badge_type, earned_at, metadata) VALUES (?1, 'default', 'level_10', ?2, ?3)";

impl BadgeKind {
    /// The statement that stores the badge for the default user; it binds
    /// the badge's id, the time and the note.
    pub open spec fn insert_statement_spec(self) -> Seq<char> {
        match self {
            BadgeKind::FirstTask => INSERT_FIRST_TASK@,
            BadgeKind::TaskMaster100 => INSERT_TASK_MASTER_100@,
            BadgeKind::WeekWarrior => INSERT_WEEK_WARRIOR@,
            BadgeKind::Level10 => INSERT_LEVEL_10@,
        }
    }

    /// The statement that stores the badge for the default user.
    pub fn insert_statement(self) -> (sql: &'static str)
        ensures
            sql@ == self.insert_statement_spec(),
    {
        match self {
            BadgeKind::FirstTask => INSERT_FIRST_TASK,
            BadgeKind::TaskMaster100 => INSERT_TASK_MASTER_100,
            BadgeKind::WeekWarrior => INSERT_WEEK_WARRIOR,
            BadgeKind::Level10 => INSERT_LEVEL_10,
        }
    }
}

/// Whether a row of the progress query can be read.
pub open spec fn progress_row_readable(row: Seq<Cell>) -> bool {
    &&& text_at(row, 0) is Some
    &&& int_at(row, 1) is Some
    &&& small_at(row, 2) is Some
    &&& small_at(row, 3) is Some
    &&& small_at(row, 4) is Some
    &&& opt_int_at(row, 5) is Some
    &&& int_at(row, 6) is Some
    &&& int_at(row, 7) is Some
}

/// Reads the user's standing from a row of the columns id, total_xp,
/// current_level, current_streak, longest_streak, last_completion_date,
/// created_at, updated_at.
pub fn progress_from_row(row: &Vec<Cell>) -> (r: Option<UserProgress>)
    ensures
        r is Some <==> progress_row_readable(row@),
        r matches Some(p) ==> {
            &&& Some(p.id@) == text_at(row@, 0)
            &&& Some(p.total_xp as int) == int_at(row@, 1)
            &&& Some(p.current_level as int) == small_at(row@, 2)
            &&& Some(p.current_streak as int) == small_at(row@, 3)
            &&& Some(p.longest_streak as int) == small_at(row@, 4)
            &&& Some(opt_int(p.last_completion_date)) == opt_int_at(row@, 5)
            &&& Some(p.created_at as int) == int_at(row@, 6)
            &&& Some(p.updated_at as int) == int_at(row@, 7)
        },
{
    let id = get_text(row, 0)?;
    let total_xp = get_i64(row, 1)?;
    let current_level = get_i32(row, 2)?;
    let current_streak = get_i32(row, 3)?;
    let longest_streak = get_i32(row, 4)?;
    let last_completion_date = get_opt_i64(row, 5)?;
    let created_at = get_i64(row, 6)?;
    let updated_at = get_i64(row, 7)?;
    Some(
        UserProgress {
            id,
            total_xp,
            current_level,
            current_streak,
            longest_streak,
            last_completion_date,
            created_at,
            updated_at,
        },
    )
}

/// Whether a row of the badge query can be read.
pub open spec fn badge_row_readable(row: Seq<Cell>) -> bool {
    &&& text_at(row, 0) is Some
    &&& text_at(row, 1) is Some
    &&& text_at(row, 2) is Some
    &&& int_at(row, 3) is Some
    &&& opt_text_at(row, 4) is Some
}

/// Reads a badge from a row of the columns id, user_id, badge_type,
/// earned_at, metadata.
pub fn badge_from_row(row: &Vec<Cell>) -> (r: Option<Badge>)
    ensures
        r is Some <==> badge_row_readable(row@),
        r matches Some(b) ==> {
            &&& Some(b.id@) == text_at(row@, 0)
            &&& Some(b.user_id@) == text_at(row@, 1)
            &&& Some(b.badge_type@) == text_at(row@, 2)
            &&& Some(b.earned_at as int) == int_at(row@, 3)
            &&& Some(opt_view(b.metadata)) == opt_text_at(row@, 4)
        },
{
    let id = get_text(row, 0)?;
    let user_id = get_text(row, 1)?;
    let badge_type = get_text(row, 2)?;
    let earned_at = get_i64(row, 3)?;
    let metadata = get_opt_text(row, 4)?;
    Some(Badge { id, user_id, badge_type, earned_at, metadata })
}

/// The standing of a user who has not done anything yet.
pub fn default_progress(created_at: i64) -> (p: UserProgress)
    ensures
        p.id@ == "default"@,
        p.total_xp == 0,
        p.current_level == 1,
        p.current_streak == 0,
        p.longest_streak == 0,
        p.last_completion_date is None,
        p.created_at == created_at,
        p.updated_at == created_at,
{
    UserProgress {
        id: "default".to_string(),
        total_xp: 0,
        current_level: 1,
        current_streak: 0,
        longest_streak: 0,
        last_completion_date: None,
        created_at,
        updated_at: created_at,
    }
}

/// Reads the first column of the first row as a count (see
/// [`crate::rows::count_of`]); 0 where the query fails.
pub fn count_or_zero(conn: &Connection, sql: &str, params: &Vec<SqlValue>) -> (count: i64) {
    match crate::rows::first_row(conn, sql, params) {
        Ok(found) => crate::rows::count_of(&found),
        Err(_) => 0,
    }
}

/// The standing of the default user. Where it cannot be read, for whatever
/// reason, a fresh standing is written and handed back.
pub fn get_user_progress_internal(conn: &Connection) -> (r: Result<UserProgress, String>)
    ensures
        r matches Err(message) ==> begins_with(message@, "Failed to create user progress: "@),
{
    let none: Vec<SqlValue> = Vec::new();
    match crate::rows::first_row(
        conn,
        "SELECT id, total_xp, current_level, current_streak, longest_streak, last_completion_date, created_at, updated_at FROM user_progress WHERE id = 'default'",
        &none,
    ) {
        Ok(Some(row)) => {
            if let Some(progress) = progress_from_row(&row) {
                return Ok(progress);
            }
        },
        _ => {},
    }
    let created_at = now();
    let mut params: Vec<SqlValue> = Vec::new();
    params.push(SqlValue::Integer(created_at));
    params.push(SqlValue::Integer(created_at));
    match execute_with(
        conn,
        "INSERT INTO user_progress (id, total_xp, current_level, current_streak, longest_streak, created_at, updated_at) VALUES ('default', 0, 1, 0, 0, ?1, ?2)",
        &params,
    ) {
        Ok(_) => Ok(default_progress(created_at)),
        Err(e) => Err(describe_error("Failed to create user progress: ", &e)),
    }
}

/// Writes the new total and level of the default user.
fn store_standing(conn: &Connection, standing: &GrantXpResult, at: i64) -> (r: Result<(), String>)
    ensures
        r matches Err(message) ==> begins_with(message@, "Failed to update user progress: "@),
{
    let mut params: Vec<SqlValue> = Vec::new();
    params.push(SqlValue::Integer(standing.total_xp));
    params.push(SqlValue::Integer(standing.new_level as i64));
    params.push(SqlValue::Integer(at));
    written(
        execute_with(
            conn,
            "UPDATE user_progress SET total_xp = ?1, current_level = ?2, updated_at = ?3 WHERE id = 'default'",
            &params,
        ),
        "Failed to update user progress: ",
    )
}

/// Whether `r` is a standing that fits together: the total is not negative,
/// the level is the level of the total, and the two other numbers follow.
pub open spec fn consistent(r: GrantXpResult) -> bool {
    &&& r.total_xp >= 0
    &&& is_level_of(r.new_level as int, r.total_xp as int)
    &&& r.xp_to_next_level == clamped(xp_to_next_level(r.new_level as int))
    &&& r.current_xp == current_xp(r.total_xp as int, r.new_level as int)
}

/// Grants `xp` points to the default user: the standing is updated and the
/// grant is written to the history.
pub fn grant_xp_internal(conn: &Connection, xp: i32, source: String, task_id: Option<String>) -> (r:
    Result<GrantXpResult, String>)
    ensures
        r matches Err(message) ==> begins_with(message@, "Failed to create user progress: "@)
            || begins_with(message@, "Failed to update user progress: "@)
            || begins_with(message@, "Failed to record XP history: "@),
        r matches Ok(standing) ==> consistent(standing),
{
    let progress = get_user_progress_internal(conn)?;
    let standing = standing_after(progress.total_xp, progress.current_level, xp as i64, true);
    let at = now();
    store_standing(conn, &standing, at)?;
    let mut params: Vec<SqlValue> = Vec::new();
    params.push(SqlValue::Text(new_id()));
    params.push(SqlValue::Integer(xp as i64));
    params.push(SqlValue::Text(source));
    params.push(bind_opt_text(&task_id));
    params.push(SqlValue::Integer(at));
    match execute_with(
        conn,
        "INSERT INTO xp_history (id, user_id, xp_amount, source, task_id, created_at) VALUES (?1, 'default', ?2, ?3, ?4, ?5)",
        &params,
    ) {
        Ok(_) => Ok(standing),
        Err(e) => Err(describe_error("Failed to record XP history: ", &e)),
    }
}

/// Takes `xp` points back from the default user and removes the grant
/// `history_id` from the history. No level is announced as gained.
pub fn revoke_xp_internal(conn: &Connection, xp: i32, history_id: String) -> (r: Result<
    GrantXpResult,
    String,
>)
    ensures
        r matches Err(message) ==> begins_with(message@, "Failed to create user progress: "@)
            || begins_with(message@, "Failed to update user progress: "@)
            || begins_with(message@, "Failed to remove XP history: "@),
        r matches Ok(standing) ==> consistent(standing) && !standing.level_up,
{
    let progress = get_user_progress_internal(conn)?;
    let standing = standing_after(progress.total_xp, progress.current_level, -(xp as i64), false);
    let at = now();
    store_standing(conn, &standing, at)?;
    let mut params: Vec<SqlValue> = Vec::new();
    params.push(SqlValue::Text(history_id));
    match execute_with(conn, "DELETE FROM xp_history WHERE id = ?1", &params) {
        Ok(_) => Ok(standing),
        Err(e) => Err(describe_error("Failed to remove XP history: ", &e)),
    }
}

/// Brings the streak of the default user up to date and stores it.
pub fn update_streak_internal(conn: &Connection) -> (r: Result<UserProgress, String>)
    ensures
        r matches Err(message) ==> begins_with(message@, "Failed to create user progress: "@)
            || begins_with(message@, "Failed to update streak: "@),
{
    let progress = get_user_progress_internal(conn)?;
    let current_time = now();
    let today_start = day_of(current_time);
    let today_end = shift(today_start, 86400 - 1);
    let mut range: Vec<SqlValue> = Vec::new();
    range.push(SqlValue::Integer(today_start));
    range.push(SqlValue::Integer(today_end));
    let completed_today = count_or_zero(
        conn,
        "SELECT COUNT(*) FROM tasks WHERE completed_at IS NOT NULL AND completed_at >= ?1 AND completed_at < ?2",
        &range,
    );
    let mut progress = advance_streak(progress, current_time, completed_today > 0);
    let update_time = now();
    let mut params: Vec<SqlValue> = Vec::new();
    params.push(SqlValue::Integer(progress.current_streak as i64));
    params.push(SqlValue::Integer(progress.longest_streak as i64));
    params.push(bind_opt_i64(progress.last_completion_date));
    params.push(SqlValue::Integer(update_time));
    match execute_with(
        conn,
        "UPDATE user_progress SET current_streak = ?1, longest_streak = ?2, last_completion_date = ?3, updated_at = ?4 WHERE id = 'default'",
        &params,
    ) {
        Ok(_) => {
            progress.updated_at = update_time;
            Ok(progress)
        },
        Err(e) => Err(describe_error("Failed to update streak: ", &e)),
    }
}

/// The badges read from `rows`, or the message for the first row that cannot
/// be read.
pub fn badges_from_rows(rows: &Vec<Vec<Cell>>) -> (r: Result<Vec<Badge>, String>)
    ensures
        r matches Err(message) ==> begins_with(message@, "Row parsing error: "@),
        r is Ok <==> forall|i: int| 0 <= i < rows@.len() ==> badge_row_readable(#[trigger] rows@[i]@),
        r matches Ok(badges) ==> badges@.len() == rows@.len(),
{
    let mut badges: Vec<Badge> = Vec::new();
    let mut i: usize = 0;
    while i < rows.len()
        invariant
            i <= rows@.len(),
            badges@.len() == i,
            forall|j: int| 0 <= j < i ==> badge_row_readable(#[trigger] rows@[j]@),
        decreases rows@.len() - i,
    {
        match badge_from_row(&rows[i]) {
            Some(badge) => badges.push(badge),
            None => {
                return Err(crate::text::concat("Row parsing error: ", crate::rows::BAD_ROW));
            },
        }
        i += 1;
    }
    Ok(badges)
}

/// The badges of the default user, newest first.
pub fn read_badges(conn: &Connection) -> (r: Result<Vec<Badge>, String>)
    ensures
        r matches Err(message) ==> listing_failure(message@),
{
    let none: Vec<SqlValue> = Vec::new();
    match query_rows(
        conn,
        "SELECT id, user_id, badge_type, earned_at, metadata FROM badges WHERE user_id = 'default' ORDER BY earned_at DESC",
        &none,
    ) {
        Ok(rows) => badges_from_rows(&rows),
        Err(e) => Err(listing_error(&e)),
    }
}

/// The kinds of badge that the badges of `earned` are stored under, in
/// order.
pub fn badge_types(earned: &Vec<Badge>) -> (held: Vec<String>)
    ensures
        held@.len() == earned@.len(),
        forall|i: int| 0 <= i < held@.len() ==> (#[trigger] held@[i])@ == earned@[i].badge_type@,
{
    let mut held: Vec<String> = Vec::new();
    let mut i: usize = 0;
    while i < earned.len()
        invariant
            i <= earned@.len(),
            held@.len() == i,
            forall|j: int| 0 <= j < i ==> (#[trigger] held@[j])@ == earned@[j].badge_type@,
        decreases earned@.len() - i,
    {
        held.push(earned[i].badge_type.clone());
        i += 1;
    }
    held
}

/// Whether `badge` is the badge of `kind` as it is awarded: for the default
/// user, under the name and with the note of the kind.
pub open spec fn is_award(badge: Badge, kind: BadgeKind) -> bool {
    &&& badge.badge_type@ == kind.name_spec()
    &&& badge.user_id@ == "default"@
    &&& opt_view(badge.metadata) == Some(kind.metadata_spec())
}

/// Whether `badges` are the badges of `kinds`, one for one and in order.
pub open spec fn awards(badges: Seq<Badge>, kinds: Seq<BadgeKind>) -> bool {
    &&& badges.len() == kinds.len()
    &&& forall|i: int| 0 <= i < badges.len() ==> is_award(#[trigger] badges[i], kinds[i])
}

/// The badge of `kind`, awarded at `at` under the id `id`.
pub fn new_badge(kind: BadgeKind, id: String, at: i64) -> (badge: Badge)
    ensures
        is_award(badge, kind),
        badge.id == id,
        badge.earned_at == at,
{
    Badge {
        id,
        user_id: "default".to_string(),
        badge_type: kind.name().to_string(),
        earned_at: at,
        metadata: Some(kind.metadata()),
    }
}

/// Whether `badge` is a badge just awarded: one of the four kinds, for the
/// default user, with the note of its kind.
pub open spec fn awarded(badge: Badge) -> bool {
    exists|kind: BadgeKind|
        badge.badge_type@ == kind.name_spec() && badge.user_id@ == "default"@ && opt_view(
            badge.metadata,
        ) == Some(#[trigger] kind.metadata_spec())
}

/// Awards every badge that the default user has earned and does not hold
/// yet, and hands back the badges awarded.
pub fn check_and_award_badges_internal(conn: &Connection) -> (r: Result<Vec<Badge>, String>)
    ensures
        r matches Ok(badges) ==> exists|completed: int, streak: int, level: int, held: Seq<Seq<char>>|
            awards(badges@, #[trigger] badges_due(completed, streak, level, held)),
        r matches Err(message) ==> begins_with(message@, "Failed to create user progress: "@)
            || listing_failure(message@) || begins_with(message@, "Failed to award badge: "@),
        r matches Ok(badges) ==> badges@.len() <= 4 && forall|i: int|
            0 <= i < badges@.len() ==> awarded(#[trigger] badges@[i]),
{
    let progress = get_user_progress_internal(conn)?;
    let none: Vec<SqlValue> = Vec::new();
    let completed = count_or_zero(
        conn,
        "SELECT COUNT(*) FROM tasks WHERE completed_at IS NOT NULL",
        &none,
    );
    let earned = read_badges(conn)?;
    let held = badge_types(&earned);
    let due = plan_badges(completed, progress.current_streak, progress.current_level, &held);
    assert(due@.len() <= 4);
    let at = now();
    let mut awarded_now: Vec<Badge> = Vec::new();
    let mut k: usize = 0;
    while k < due.len()
        invariant
            k <= due@.len(),
            awards(awarded_now@, due@.take(k as int)),
        decreases due@.len() - k,
    {
        let kind = due[k];
        let id = new_id();
        let mut params: Vec<SqlValue> = Vec::new();
        params.push(SqlValue::Text(id.clone()));
        params.push(SqlValue::Integer(at));
        params.push(SqlValue::Text(kind.metadata()));
        if let Err(e) = execute_with(conn, kind.insert_statement(), &params) {
            return Err(describe_error("Failed to award badge: ", &e));
        }
        awarded_now.push(new_badge(kind, id, at));
        k += 1;
    }
    assert(due@.take(due@.len() as int) == due@);
    assert forall|i: int| 0 <= i < awarded_now@.len() implies awarded(
        #[trigger] awarded_now@[i],
    ) by {
        assert(is_award(awarded_now@[i], due@[i]));
    }
    Ok(awarded_now)
}

/// The standing of the default user.
pub fn get_user_progress(db: &DbConnection) -> (r: Result<UserProgress, String>)
    ensures
        r matches Err(message) ==> begins_with(message@, "Failed to create user progress: "@),
{
    get_user_progress_internal(&db.conn)
}

/// Grants `xp` points to the default user.
pub fn grant_xp(db: &DbConnection, xp: i32, source: String, task_id: Option<String>) -> (r: Result<
    GrantXpResult,
    String,
>)
    ensures
        r matches Err(message) ==> begins_with(message@, "Failed to create user progress: "@)
            || begins_with(message@, "Failed to update user progress: "@)
            || begins_with(message@, "Failed to record XP history: "@),
        r matches Ok(standing) ==> consistent(standing),
{
    grant_xp_internal(&db.conn, xp, source, task_id)
}

/// Brings the streak of the default user up to date.
pub fn update_streak(db: &DbConnection) -> (r: Result<UserProgress, String>)
    ensures
        r matches Err(message) ==> begins_with(message@, "Failed to create user progress: "@)
            || begins_with(message@, "Failed to update streak: "@),
{
    update_streak_internal(&db.conn)
}

/// Brings the streak of the default user up to date when the application
/// starts.
pub fn check_streak_on_startup(db: &DbConnection) -> (r: Result<UserProgress, String>)
    ensures
        r matches Err(message) ==> begins_with(message@, "Failed to create user progress: "@)
            || begins_with(message@, "Failed to update streak: "@),
{
    update_streak(db)
}

/// The badges of the default user, newest first.
pub fn get_badges(db: &DbConnection) -> (r: Result<Vec<Badge>, String>)
    ensures
        r matches Err(message) ==> listing_failure(message@),
{
    read_badges(&db.conn)
}

/// Awards every badge that the default user has earned and does not hold yet.
pub fn check_and_award_badges(db: &DbConnection) -> (r: Result<Vec<Badge>, String>)
    ensures
        r matches Ok(badges) ==> exists|completed: int, streak: int, level: int, held: Seq<Seq<char>>|
            awards(badges@, #[trigger] badges_due(completed, streak, level, held)),
        r matches Err(message) ==> begins_with(message@, "Failed to create user progress: "@)
            || listing_failure(message@) || begins_with(message@, "Failed to award badge: "@),
        r matches Ok(badges) ==> badges@.len() <= 4 && forall|i: int|
            0 <= i < badges@.len() ==> awarded(#[trigger] badges@[i]),
{
    check_and_award_badges_internal(&db.conn)
}

} // verus!
