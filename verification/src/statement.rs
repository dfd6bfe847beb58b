//! A statement ready to be run: its text and the values bound to its
//! placeholders, in order.

use vstd::prelude::*;
use vstd::string::StringExecFns;
use crate::sqlite::Datum;
use crate::sqlite::SqlValue;
use crate::sqlite::values;
use crate::text::join;
use crate::text::joined;
use crate::text::texts;

verus! {

/// A statement as contracts see it.
pub struct StatementSpec {
    pub sql: Seq<char>,
    pub params: Seq<Datum>,
}

/// A statement and the values bound to it.
#[derive(Clone, Debug)]
pub struct Statement {
    pub sql: String,
    pub params: Vec<SqlValue>,
}

impl View for Statement {
    type V = StatementSpec;

    open spec fn view(&self) -> StatementSpec {
        StatementSpec { sql: self.sql@, params: values(self.params@) }
    }
}

/// The value bound for an optional text: `NULL` where there is none.
pub open spec fn text_or_null(text: Option<String>) -> Datum {
    match text {
        Some(s) => Datum::Text(s@),
        None => Datum::Null,
    }
}

/// The value bound for an optional 64-bit integer: `NULL` where there is none.
pub open spec fn int_or_null(n: Option<i64>) -> Datum {
    match n {
        Some(n) => Datum::Integer(n as int),
        None => Datum::Null,
    }
}

/// The value bound for an optional 32-bit integer: `NULL` where there is none.
pub open spec fn small_or_null(n: Option<i32>) -> Datum {
    match n {
        Some(n) => Datum::Integer(n as int),
        None => Datum::Null,
    }
}

/// The value bound for a flag: 1 for `true`, 0 for `false`.
pub open spec fn flag(on: bool) -> Datum {
    Datum::Integer(
        if on {
            1
        } else {
            0
        },
    )
}

/// Binds a text.
pub fn bind_text(text: &str) -> (v: SqlValue)
    ensures
        v@ == Datum::Text(text@),
{
    SqlValue::Text(text.to_string())
}

/// Binds an optional text.
pub fn bind_opt_text(text: &Option<String>) -> (v: SqlValue)
    ensures
        v@ == text_or_null(*text),
{
    match text {
        Some(s) => SqlValue::Text(s.clone()),
        None => SqlValue::Null,
    }
}

/// Binds an optional 64-bit integer.
pub fn bind_opt_i64(n: Option<i64>) -> (v: SqlValue)
    ensures
        v@ == int_or_null(n),
{
    match n {
        Some(n) => SqlValue::Integer(n),
        None => SqlValue::Null,
    }
}

/// Binds a 32-bit integer.
pub fn bind_i32(n: i32) -> (v: SqlValue)
    ensures
        v@ == Datum::Integer(n as int),
{
    SqlValue::Integer(n as i64)
}

/// Binds an optional 32-bit integer.
pub fn bind_opt_i32(n: Option<i32>) -> (v: SqlValue)
    ensures
        v@ == small_or_null(n),
{
    match n {
        Some(n) => SqlValue::Integer(n as i64),
        None => SqlValue::Null,
    }
}

/// Binds a flag.
pub fn bind_flag(on: bool) -> (v: SqlValue)
    ensures
        v@ == flag(on),
{
    SqlValue::Integer(
        if on {
            1
        } else {
            0
        },
    )
}

/// A copy of a bound value.
pub fn copy_value(value: &SqlValue) -> (copy: SqlValue)
    ensures
        copy@ == value@,
{
    match value {
        SqlValue::Null => SqlValue::Null,
        SqlValue::Integer(n) => SqlValue::Integer(*n),
        SqlValue::Text(s) => SqlValue::Text(s.clone()),
    }
}

/// Appends one bound value; the views follow.
pub fn push_param(params: &mut Vec<SqlValue>, value: SqlValue)
    ensures
        values(final(params)@) == values(old(params)@).push(value@),
{
    params.push(value);
    assert(values(params@) =~= values(old(params)@).push(value@));
}

/// A piece of statement text that is only there on a condition.
pub open spec fn clause(present: bool, text: Seq<char>) -> Seq<char> {
    if present {
        text
    } else {
        Seq::empty()
    }
}

/// The list of one value, or of none.
pub open spec fn opt_param(value: Option<Datum>) -> Seq<Datum> {
    match value {
        Some(v) => seq![v],
        None => Seq::empty(),
    }
}

/// The view of an optional bound value.
pub open spec fn opt_datum(value: Option<SqlValue>) -> Option<Datum> {
    match value {
        Some(v) => Some(v@),
        None => None,
    }
}

/// Appends `text` to `sql` where `present` holds.
pub fn append_clause(sql: &mut String, present: bool, text: &str)
    ensures
        final(sql)@ == old(sql)@ + clause(present, text@),
{
    if present {
        sql.append(text);
    } else {
        assert(sql@ + Seq::<char>::empty() =~= sql@);
    }
}

/// Appends `value` to `params` where there is one.
pub fn push_opt(params: &mut Vec<SqlValue>, value: Option<SqlValue>)
    ensures
        values(final(params)@) == values(old(params)@) + opt_param(opt_datum(value)),
{
    match value {
        Some(v) => {
            params.push(v);
            assert(values(params@) =~= values(old(params)@) + seq![v@]);
        },
        None => {
            assert(values(params@) + Seq::<Datum>::empty() =~= values(params@));
        },
    }
}

/// One assignment of an `UPDATE` as contracts see it: its text, such as
/// `title = ?`, and the value to bind, if the column is to be changed.
pub struct AssignmentSpec {
    pub clause: Seq<char>,
    pub value: Option<Datum>,
}

/// One assignment of an `UPDATE`.
#[derive(Clone, Debug)]
pub struct Assignment {
    pub clause: String,
    pub value: Option<SqlValue>,
}

impl View for Assignment {
    type V = AssignmentSpec;

    open spec fn view(&self) -> AssignmentSpec {
        AssignmentSpec { clause: self.clause@, value: opt_datum(self.value) }
    }
}

/// A list of assignments as contracts see it.
pub open spec fn assignments(list: Seq<Assignment>) -> Seq<AssignmentSpec> {
    list.map_values(|a: Assignment| a@)
}

/// The texts of the assignments that have a value, in order.
pub open spec fn assigned_clauses(list: Seq<AssignmentSpec>) -> Seq<Seq<char>>
    decreases list.len(),
{
    if list.len() == 0 {
        Seq::empty()
    } else if list.last().value is Some {
        assigned_clauses(list.drop_last()).push(list.last().clause)
    } else {
        assigned_clauses(list.drop_last())
    }
}

/// The values of the assignments that have one, in order.
pub open spec fn assigned_values(list: Seq<AssignmentSpec>) -> Seq<Datum>
    decreases list.len(),
{
    if list.len() == 0 {
        Seq::empty()
    } else if list.last().value is Some {
        assigned_values(list.drop_last()).push(list.last().value->0)
    } else {
        assigned_values(list.drop_last())
    }
}

/// The `UPDATE` that makes the assignments that have a value on the row
/// called `id`, and none where no assignment has one. `head` is the text up
/// to the first assignment. Where `stamp` is set, the time of the change is
/// assigned last.
pub open spec fn update_spec(
    head: Seq<char>,
    list: Seq<AssignmentSpec>,
    stamp: Option<int>,
    id: Seq<char>,
) -> Option<StatementSpec> {
    if assigned_clauses(list).len() == 0 {
        None
    } else {
        Some(
            match stamp {
                Some(now) => StatementSpec {
                    sql: head + joined(assigned_clauses(list).push("updated_at = ?"@), ", "@)
                        + " WHERE id = ?"@,
                    params: assigned_values(list).push(Datum::Integer(now)).push(Datum::Text(id)),
                },
                None => StatementSpec {
                    sql: head + joined(assigned_clauses(list), ", "@) + " WHERE id = ?"@,
                    params: assigned_values(list).push(Datum::Text(id)),
                },
            },
        )
    }
}

/// Builds the `UPDATE` that makes the assignments that have a value.
pub fn update_statement(head: &str, list: &Vec<Assignment>, stamp: Option<i64>, id: &str) -> (r:
    Option<Statement>)
    ensures
        match r {
            Some(statement) => Some(statement@) == update_spec(
                head@,
                assignments(list@),
                opt_stamp(stamp),
                id@,
            ),
            None => update_spec(head@, assignments(list@), opt_stamp(stamp), id@) is None,
        },
{
    let mut clauses: Vec<String> = Vec::new();
    let mut params: Vec<SqlValue> = Vec::new();
    let mut i: usize = 0;
    assert(assignments(list@).take(0) =~= Seq::empty());
    assert(texts(clauses@) =~= Seq::empty());
    assert(values(params@) =~= Seq::empty());
    while i < list.len()
        invariant
            i <= list@.len(),
            texts(clauses@) == assigned_clauses(assignments(list@).take(i as int)),
            values(params@) == assigned_values(assignments(list@).take(i as int)),
        decreases list@.len() - i,
    {
        let ghost before = assignments(list@).take(i as int);
        let ghost after = assignments(list@).take(i + 1);
        assert(after.drop_last() =~= before);
        assert(after.last() == list@[i as int]@);
        match &list[i].value {
            Some(value) => {
                let ghost old_clauses = clauses@;
                clauses.push(list[i].clause.clone());
                assert(texts(clauses@) =~= texts(old_clauses).push(list@[i as int].clause@));
                push_param(&mut params, copy_value(value));
            },
            None => {},
        }
        i += 1;
    }
    assert(assignments(list@).take(list@.len() as int) == assignments(list@));
    if clauses.len() == 0 {
        return None;
    }
    if let Some(now) = stamp {
        let ghost old_clauses = clauses@;
        clauses.push("updated_at = ?".to_string());
        assert(texts(clauses@) =~= texts(old_clauses).push("updated_at = ?"@));
        push_param(&mut params, SqlValue::Integer(now));
    }
    push_param(&mut params, bind_text(id));
    let mut sql = head.to_string();
    sql.append(join(&clauses, ", ").as_str());
    sql.append(" WHERE id = ?");
    Some(Statement { sql, params })
}

/// The time of an optional stamp.
pub open spec fn opt_stamp(stamp: Option<i64>) -> Option<int> {
    match stamp {
        Some(t) => Some(t as int),
        None => None,
    }
}

} // verus!
