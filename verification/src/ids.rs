//! Fresh identifiers for new rows.

use vstd::prelude::*;

verus! {

/// Calls `Uuid::new_v4` and renders the result with `to_string`: a random
/// identifier in the hyphenated form, which is 36 characters long. Two calls
/// are not expected to give the same identifier, and nothing here says so.
#[verifier::external_body]
pub(crate) fn new_id() -> (id: String)
    ensures
        id@.len() == 36,
{
    uuid::Uuid::new_v4().to_string()
}

} // verus!
