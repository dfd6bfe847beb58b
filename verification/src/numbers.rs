//! Arithmetic on times and counts that stays inside the range of `i64`.

use vstd::prelude::*;

verus! {

/// `n` held inside the range of `i64`.
pub open spec fn clamped(n: int) -> int {
    if n > i64::MAX {
        i64::MAX as int
    } else if n < i64::MIN {
        i64::MIN as int
    } else {
        n
    }
}

/// `time` moved by `delta` seconds, held inside the range of `i64`.
pub open spec fn shifted(time: int, delta: int) -> int {
    clamped(time + delta)
}

/// `time` moved by `delta` seconds, held inside the range of `i64`.
pub fn shift(time: i64, delta: i64) -> (moved: i64)
    ensures
        moved == shifted(time as int, delta as int),
{
    match time.checked_add(delta) {
        Some(moved) => moved,
        None => if delta > 0 {
            i64::MAX
        } else {
            i64::MIN
        },
    }
}

} // verus!
