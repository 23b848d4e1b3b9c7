//! Identifiers for new records.

use vstd::prelude::*;

verus! {

/// A new random identifier: `uuid::Uuid::new_v4()` as text.
///
/// Nothing is claimed of the value: it differs from call to call. `uuid`
/// panics where the system gives it no random bytes.
#[verifier::external_body]
pub(crate) fn new_id() -> String {
    uuid::Uuid::new_v4().to_string()
}

} // verus!
