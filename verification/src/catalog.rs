//! The schema catalog: the named migration units, in the order in which they
//! are applied, and the way each of them is executed.

use vstd::prelude::*;
use vstd::string::StrSliceExecFns;
use crate::schema::CoreTable;
use crate::schema::Creation;
use crate::schema::CriticalColumn;
use crate::text::str_eq;
use crate::text::texts;

verus! {

/// One named schema change. The name places it in the apply order; the body
/// is the SQL text found under that name.
#[derive(Clone, Debug)]
pub struct MigrationUnit {
    pub name: String,
    pub body: String,
}

/// A guarded schema change: columns that are added to `table` only where a
/// look at the table shows them missing, and a creation batch that is run
/// afterwards, if there is one.
pub struct GuardSpec {
    pub table: CoreTable,
    pub columns: Seq<CriticalColumn>,
    pub creation: Option<Creation>,
}

/// The executable form of [`GuardSpec`].
#[derive(Clone, Debug)]
pub struct Guard {
    pub table: CoreTable,
    pub columns: Vec<CriticalColumn>,
    pub creation: Option<Creation>,
}

impl View for Guard {
    type V = GuardSpec;

    open spec fn view(&self) -> GuardSpec {
        GuardSpec { table: self.table, columns: self.columns@, creation: self.creation }
    }
}

/// How a migration unit is executed.
#[derive(Clone, Debug)]
pub enum Strategy {
    /// The unit's body is run as one batch.
    RunRawSql,
    /// The unit's body is not run; its known effect is brought about by
    /// statements that are safe to repeat.
    Guarded(Guard),
}

impl View for Strategy {
    type V = Option<GuardSpec>;

    open spec fn view(&self) -> Option<GuardSpec> {
        match self {
            Strategy::RunRawSql => None,
            Strategy::Guarded(guard) => Some(guard@),
        }
    }
}

/// The unit that adds the recurrence columns to the task table.
pub open spec fn recurrence_unit() -> Seq<char> {
    "0004_add_recurrence.sql"@
}

/// The unit that adds the notification columns to the task table and creates
/// the notification schedule.
pub open spec fn notification_unit() -> Seq<char> {
    "0006_add_notification_preferences.sql"@
}

/// The unit that adds the size column to the attachment table.
pub open spec fn attachment_size_unit() -> Seq<char> {
    "0008_add_attachment_size.sql"@
}

/// The guard under which the unit called `name` runs, if it has one.
pub open spec fn guard_for(name: Seq<char>) -> Option<GuardSpec> {
    if name == recurrence_unit() {
        Some(
            GuardSpec {
                table: CoreTable::Tasks,
                columns: seq![
                    CriticalColumn::RecurrenceType,
                    CriticalColumn::RecurrenceInterval,
                    CriticalColumn::RecurrenceParentId
                ],
                creation: None,
            },
        )
    } else if name == attachment_size_unit() {
        Some(
            GuardSpec {
                table: CoreTable::Attachments,
                columns: seq![CriticalColumn::AttachmentSize],
                creation: None,
            },
        )
    } else if name == notification_unit() {
        Some(
            GuardSpec {
                table: CoreTable::Tasks,
                columns: seq![
                    CriticalColumn::ReminderMinutesBefore,
                    CriticalColumn::NotificationRepeat
                ],
                creation: Some(Creation::NotificationSchedule),
            },
        )
    } else {
        None
    }
}

/// Every column of a guard belongs to the guard's table.
pub open spec fn guard_well_formed(guard: GuardSpec) -> bool {
    forall|i: int| 0 <= i < guard.columns.len() ==> guard.columns[i].table_spec() == guard.table
}

/// The way in which the unit called `name` is executed.
pub fn strategy_for(name: &str) -> (strategy: Strategy)
    ensures
        strategy@ == guard_for(name@),
        strategy@ matches Some(guard) ==> guard_well_formed(guard),
{
    if str_eq(name, "0004_add_recurrence.sql") {
        let mut columns: Vec<CriticalColumn> = Vec::new();
        columns.push(CriticalColumn::RecurrenceType);
        columns.push(CriticalColumn::RecurrenceInterval);
        columns.push(CriticalColumn::RecurrenceParentId);
        let guard = Guard { table: CoreTable::Tasks, columns, creation: None };
        assert(guard@.columns =~= guard_for(name@)->0.columns);
        Strategy::Guarded(guard)
    } else if str_eq(name, "0008_add_attachment_size.sql") {
        let mut columns: Vec<CriticalColumn> = Vec::new();
        columns.push(CriticalColumn::AttachmentSize);
        let guard = Guard { table: CoreTable::Attachments, columns, creation: None };
        assert(guard@.columns =~= guard_for(name@)->0.columns);
        Strategy::Guarded(guard)
    } else if str_eq(name, "0006_add_notification_preferences.sql") {
        let mut columns: Vec<CriticalColumn> = Vec::new();
        columns.push(CriticalColumn::ReminderMinutesBefore);
        columns.push(CriticalColumn::NotificationRepeat);
        let guard = Guard {
            table: CoreTable::Tasks,
            columns,
            creation: Some(Creation::NotificationSchedule),
        };
        assert(guard@.columns =~= guard_for(name@)->0.columns);
        Strategy::Guarded(guard)
    } else {
        Strategy::RunRawSql
    }
}

/// Whether a file of this name holds a migration: the name ends in `.sql` and
/// has at least one character before that.
pub open spec fn is_sql_file(name: Seq<char>) -> bool {
    name.len() > 4 && name.subrange(name.len() - 4, name.len() as int) == ".sql"@
}

/// Whether a file of this name holds a migration.
pub fn has_sql_extension(name: &str) -> (yes: bool)
    ensures
        yes == is_sql_file(name@),
{
    let n = name.unicode_len();
    if n <= 4 {
        return false;
    }
    str_eq(name.substring_char(n - 4, n), ".sql")
}

/// `a` comes before `b`, or is equal to it, in the order of `str`: character
/// by character, by code point, a proper prefix first.
pub open spec fn lex_le(a: Seq<char>, b: Seq<char>) -> bool
    decreases a.len(),
{
    if a.len() == 0 {
        true
    } else if b.len() == 0 {
        false
    } else if a[0] != b[0] {
        (a[0] as u32) < (b[0] as u32)
    } else {
        lex_le(a.drop_first(), b.drop_first())
    }
}

/// The names are in ascending order.
pub open spec fn ascending(names: Seq<Seq<char>>) -> bool {
    forall|i: int, j: int| 0 <= i < j < names.len() ==> lex_le(names[i], names[j])
}

/// The migration files among `entries`, in the order in which they were given.
pub open spec fn sql_files(entries: Seq<Seq<char>>) -> Seq<Seq<char>> {
    entries.filter(|name: Seq<char>| is_sql_file(name))
}

/// Filtering commutes with appending one entry.
pub proof fn lemma_sql_files_push(entries: Seq<Seq<char>>, entry: Seq<char>)
    ensures
        sql_files(entries.push(entry)) == if is_sql_file(entry) {
            sql_files(entries).push(entry)
        } else {
            sql_files(entries)
        },
{
    reveal(Seq::filter);
    assert(entries.push(entry).drop_last() =~= entries);
}

/// Calls `sort` on the slice of strings: afterwards the same strings stand in
/// the ascending order of `str`.
#[verifier::external_body]
pub(crate) fn sort_names(names: &mut Vec<String>)
    ensures
        texts(final(names)@).to_multiset() == texts(old(names)@).to_multiset(),
        ascending(texts(final(names)@)),
{
    names.sort()
}

/// The names of the migration units among the entries of a directory, in
/// apply order. No entry makes an empty catalog, which is no error.
pub fn catalog_names(entries: &Vec<String>) -> (names: Vec<String>)
    ensures
        texts(names@).to_multiset() == sql_files(texts(entries@)).to_multiset(),
        ascending(texts(names@)),
{
    let mut names: Vec<String> = Vec::new();
    let mut i: usize = 0;
    while i < entries.len()
        invariant
            i <= entries@.len(),
            texts(names@) == sql_files(texts(entries@).take(i as int)),
        decreases entries@.len() - i,
    {
        proof {
            let before = texts(entries@).take(i as int);
            assert(texts(entries@).take(i + 1) == before.push(texts(entries@)[i as int]));
            lemma_sql_files_push(before, texts(entries@)[i as int]);
        }
        if has_sql_extension(entries[i].as_str()) {
            let ghost old_names = names@;
            names.push(entries[i].clone());
            assert(texts(names@) =~= texts(old_names).push(entries@[i as int]@));
        }
        i += 1;
    }
    assert(texts(entries@).take(entries@.len() as int) == texts(entries@));
    sort_names(&mut names);
    names
}

} // verus!
