//! Why database initialisation failed.

use vstd::prelude::*;
use crate::sqlite::error_text;
use crate::text::begins_with;
use crate::text::concat;
use crate::text::contains_text;
use crate::text::occurs_in;

use crate::sqlite::QueryFailure;
use crate::sqlite::QueryPhase;

verus! {

/// The step of the startup sequence that failed.
#[derive(Clone, Copy, Debug, PartialEq, Eq, Structural)]
pub enum InitStage {
    /// The database file could not be opened.
    Open,
    /// The ledger table could not be created or read.
    Ledger,
    /// A pending migration unit failed; its transaction was rolled back.
    Migration,
    /// The live schema could not be inspected or repaired.
    Reconcile,
    /// The baseline schema could not be created.
    Bootstrap,
    /// The example rows could not be written.
    Seed,
}

/// A fatal initialisation error: the step that failed and what SQLite said.
#[derive(Clone, Debug)]
pub struct InitError {
    pub stage: InitStage,
    pub message: String,
}

/// A failure as contracts see it: the step, and the characters of the
/// message.
pub type Failure = (InitStage, Seq<char>);

/// The failure that an error stands for.
pub open spec fn failure_of(e: InitError) -> Failure {
    (e.stage, e.message@)
}

/// The failure of a step that should have been tried and has no outcome.
pub open spec fn not_tried(stage: InitStage) -> Failure {
    (stage, Seq::empty())
}

/// Whether a result is the given outcome: the same value, or an error that
/// stands for the same failure.
pub open spec fn is_outcome<T>(r: Result<T, InitError>, outcome: Result<T, Failure>) -> bool {
    match r {
        Ok(value) => outcome == Ok::<T, Failure>(value),
        Err(e) => outcome == Err::<T, Failure>(failure_of(e)),
    }
}

impl InitError {
    /// The error for a failure of `stage`, with `prefix` put before the text
    /// of the SQLite error.
    pub fn at(stage: InitStage, prefix: &str, cause: &rusqlite::Error) -> (e: InitError)
        ensures
        begins_with(e.message@, prefix@),
            e.stage == stage,
    {
        InitError { stage, message: describe_error(prefix, cause) }
    }

    /// The message, as it is shown to the user.
    pub fn to_text(&self) -> (text: String)
        ensures
            text@ == self.message@,
    {
        self.message.clone()
    }
}

/// The message for a failure: `prefix`, then what the error says.
pub fn describe_error(prefix: &str, e: &rusqlite::Error) -> (message: String)
    ensures
        begins_with(message@, prefix@),
{
    concat(prefix, error_text(e).as_str())
}

/// Whether what the error says holds `needle`. Every text holds the empty
/// needle.
pub fn error_mentions(e: &rusqlite::Error, needle: &str) -> (found: bool)
    ensures
        needle@.len() == 0 ==> found,
{
    let text = error_text(e);
    proof {
        if needle@.len() == 0 {
            assert(text@.subrange(0int, 0int + needle@.len()) =~= needle@);
            assert(occurs_in(needle@, text@));
        }
    }
    contains_text(text.as_str(), needle)
}

/// What stands before the message of a failed listing, by the step at
/// which it failed.
pub open spec fn phase_prefix(phase: QueryPhase) -> Seq<char> {
    match phase {
        QueryPhase::Prepare => "Query error: "@,
        QueryPhase::Bind => "Query execution error: "@,
        QueryPhase::Fetch => "Row parsing error: "@,
    }
}

/// Whether a message is that of a failed listing: it begins with one of the
/// three texts of [`phase_prefix`].
pub open spec fn listing_failure(message: Seq<char>) -> bool {
    begins_with(message, "Query error: "@) || begins_with(message, "Query execution error: "@)
        || begins_with(message, "Row parsing error: "@)
}

/// The message of a failed listing: the text for the step at which it
/// failed, then what SQLite said.
pub fn listing_error(failure: &QueryFailure) -> (message: String)
    ensures
        begins_with(message@, phase_prefix(failure.phase)),
        listing_failure(message@),
{
    match failure.phase {
        QueryPhase::Prepare => describe_error("Query error: ", &failure.cause),
        QueryPhase::Bind => describe_error("Query execution error: ", &failure.cause),
        QueryPhase::Fetch => describe_error("Row parsing error: ", &failure.cause),
    }
}

/// What a query gave, as the library keeps it: the value where SQLite
/// answered, and what the error says where it did not.
pub fn looked_for<T>(outcome: Result<T, rusqlite::Error>) -> (r: Result<T, String>)
    ensures
        outcome is Ok <==> r is Ok,
        outcome matches Ok(found) ==> r == Ok::<T, String>(found),
{
    match outcome {
        Ok(found) => Ok(found),
        Err(e) => Err(describe_error("", &e)),
    }
}

/// What SQLite answered to a batch, as the library keeps it: nothing where
/// the batch was accepted, and what the error says where it was not.
pub fn said(outcome: Result<(), rusqlite::Error>) -> (r: Result<(), String>)
    ensures
        outcome is Ok <==> r is Ok,
{
    match outcome {
        Ok(()) => Ok(()),
        Err(e) => Err(describe_error("", &e)),
    }
}

/// The outcome of a statement that only writes: success where SQLite
/// accepted it, however many rows it changed; where not, the message made of
/// `prefix` and what SQLite said.
pub fn written(outcome: Result<usize, rusqlite::Error>, prefix: &str) -> (r: Result<(), String>)
    ensures
        outcome is Ok <==> r is Ok,
        r matches Err(message) ==> begins_with(message@, prefix@),
{
    match outcome {
        Ok(_) => Ok(()),
        Err(e) => Err(describe_error(prefix, &e)),
    }
}

} // verus!
