//! The wall clock, read through chrono.

use vstd::prelude::*;

verus! {

/// Relies on `chrono::Utc::now` and `DateTime::timestamp_millis`: the current
/// time in milliseconds since the Unix epoch. Nothing is promised of its value.
#[verifier::external_body]
pub(crate) fn now_millis() -> (r: i64) {
    chrono::Utc::now().timestamp_millis()
}

/// Relies on `chrono::Utc::now` and `DateTime::format`: the current time
/// written as the local task manager stamps annotations (`%Y%m%dT%H%M%SZ`).
#[verifier::external_body]
pub(crate) fn now_stamp() -> (r: String) {
    chrono::Utc::now().format("%Y%m%dT%H%M%SZ").to_string()
}

} // verus!
