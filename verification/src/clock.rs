use vstd::prelude::*;

verus! {

/// Relies on chrono::Local::now and chrono::DateTime::timestamp_millis:
/// the current wall-clock time, as milliseconds since the Unix epoch.
/// Nothing is promised of the value: every caller must handle any reading.
#[verifier::external_body]
pub(crate) fn now_millis() -> i64 {
    chrono::Local::now().timestamp_millis()
}

} // verus!
