//! Wall-clock access.

use vstd::prelude::*;

verus! {

/// Current time as milliseconds since the Unix epoch.
///
/// Trusted: calls `chrono::Utc::now` and converts the result with
/// `DateTime::timestamp_millis`. The value depends on the machine's clock, so
/// nothing is claimed of it; callers state what holds for every reading.
/// `Utc::now` panics only when the system clock is set before the epoch.
#[verifier::external_body]
pub(crate) fn now_millis() -> (ms: i64) {
    chrono::Utc::now().timestamp_millis()
}

} // verus!
