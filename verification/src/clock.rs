//! The wall clock, read through chrono. Records carry their creation
//! time as milliseconds since the Unix epoch.

use vstd::prelude::*;

verus! {

/// Relies on chrono's `Utc::now` and `DateTime::timestamp_millis`: the
/// current time in milliseconds since the Unix epoch. The value depends
/// on when the call runs, so nothing is assumed of it.
#[verifier::external_body]
pub(crate) fn current_timestamp_millis() -> i64 {
    chrono::Utc::now().timestamp_millis()
}

} // verus!
