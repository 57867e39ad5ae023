//! The wall clock.

use vstd::prelude::*;

verus! {

/// Calls `chrono::Utc::now` and drops the offset (`DateTime::naive_utc`).
/// Nothing is claimed of the instant that comes back. `Utc::now` panics if
/// the system clock stands before 1970.
#[verifier::external_body]
pub(crate) fn now() -> chrono::NaiveDateTime {
    chrono::Utc::now().naive_utc()
}

} // verus!
