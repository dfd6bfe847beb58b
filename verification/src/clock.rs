//! The wall clock, read in whole seconds since the Unix epoch.

use vstd::prelude::*;
use std::time::Duration;
use std::time::SystemTime;
use std::time::SystemTimeError;

verus! {

/// `std::time::SystemTime`: an instant of the system clock, opaque to the verifier.
#[verifier::external_type_specification]
#[verifier::external_body]
pub struct ExSystemTime(std::time::SystemTime);

/// `std::time::SystemTimeError`: the clock stood before the instant it was compared to.
#[verifier::external_type_specification]
#[verifier::external_body]
pub struct ExSystemTimeError(std::time::SystemTimeError);

/// Calls `SystemTime::now`. Nothing is claimed of the instant.
#[verifier::external_body]
fn current_instant() -> (t: SystemTime) {
    SystemTime::now()
}

/// Calls `SystemTime::duration_since` against `UNIX_EPOCH`: the time elapsed
/// since the epoch, or an error where the instant lies before it.
#[verifier::external_body]
fn elapsed_since_epoch(t: &SystemTime) -> (r: Result<Duration, SystemTimeError>) {
    t.duration_since(std::time::UNIX_EPOCH)
}

/// Calls `Duration::as_secs`: the whole seconds of the duration.
#[verifier::external_body]
fn whole_seconds(d: &Duration) -> (s: u64) {
    d.as_secs()
}

/// The time that a clock reading stands for: the seconds elapsed since the
/// epoch where the clock gave them, held below `i64::MAX`, and 0 where the
/// clock stands before the epoch.
pub open spec fn reading_spec(elapsed: Option<u64>) -> int {
    match elapsed {
        Some(seconds) => if seconds > i64::MAX {
            i64::MAX as int
        } else {
            seconds as int
        },
        None => 0,
    }
}

/// The time that a clock reading stands for.
pub fn reading(elapsed: Option<u64>) -> (seconds: i64)
    ensures
        seconds == reading_spec(elapsed),
        seconds >= 0,
{
    match elapsed {
        Some(s) => if s > 0x7fff_ffff_ffff_ffffu64 {
            i64::MAX
        } else {
            s as i64
        },
        None => 0,
    }
}

/// Seconds since the Unix epoch, as the system clock reports them (see
/// [`reading`]).
///
/// A clock that stands before the epoch reads as `0`, and a count beyond
/// `i64::MAX` reads as `i64::MAX`, so the result is never negative.
pub fn now() -> (seconds: i64)
    ensures
        seconds >= 0,
{
    let instant = current_instant();
    reading(
        match elapsed_since_epoch(&instant) {
            Ok(elapsed) => Some(whole_seconds(&elapsed)),
            Err(_) => None,
        },
    )
}

} // verus!
