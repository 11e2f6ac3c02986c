//! Fresh identifiers.

use vstd::prelude::*;

verus! {

/// Calls `uuid::Uuid::new_v4` and takes the identifier's display text. The
/// identifier is random, so nothing is claimed of it.
#[verifier::external_body]
pub(crate) fn fresh_id() -> (id: String) {
    uuid::Uuid::new_v4().to_string()
}

} // verus!
