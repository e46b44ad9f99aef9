//! Identifiers of stored rows: random, so that concurrent writers do not collide.

use vstd::prelude::*;

verus! {

/// A fresh version-4 identifier from `uuid::Uuid::new_v4`, in its hyphenated text form.
/// Nothing is promised of its value. The call panics where the platform has no random bytes
/// to give.
#[verifier::external_body]
pub(crate) fn fresh_id() -> (id: String) {
    uuid::Uuid::new_v4().to_string()
}

} // verus!
