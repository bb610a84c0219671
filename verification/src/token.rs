//! Fresh opaque tokens: the ids of shell sessions and database connections
//! are generated here, never predicted by callers.

use vstd::prelude::*;

verus! {

/// Relies on `uuid::Uuid::new_v4` and its hyphenated rendering: a fresh
/// random token of 36 characters.
#[verifier::external_body]
pub(crate) fn new_token() -> (r: String)
    ensures
        r@.len() == 36,
{
    uuid::Uuid::new_v4().to_string()
}

} // verus!
