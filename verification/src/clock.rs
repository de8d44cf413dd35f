//! The wall clock, read through the `chrono` crate.

use vstd::prelude::*;

verus! {

/// Relies on `chrono::Utc::now` and `chrono::DateTime::timestamp_millis`:
/// the current wall-clock time as milliseconds since the Unix epoch. The
/// result depends on the machine's clock alone, so nothing is promised of
/// it. `Utc::now` aborts when the system clock is set before the Unix
/// epoch.
#[verifier::external_body]
pub(crate) fn now_millis() -> i64 {
    chrono::Utc::now().timestamp_millis()
}

} // verus!
