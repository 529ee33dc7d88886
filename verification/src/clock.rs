//! The wall clock.

use vstd::prelude::*;

verus! {

/// Reads the wall clock with `chrono::Utc::now` and returns what
/// `DateTime::timestamp` makes of it: whole seconds since the Unix epoch.
/// Nothing is promised about the value, so whoever calls this is verified
/// for every reading of the clock.
#[verifier::external_body]
pub(crate) fn unix_now() -> (now: i64) {
    chrono::Utc::now().timestamp()
}

} // verus!
