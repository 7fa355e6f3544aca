//! The wall clock.

use vstd::prelude::*;

verus! {

/// The current time in milliseconds since the Unix epoch: what chrono's
/// `Utc::now()` reports, read through `DateTime::timestamp_millis`.
///
/// Nothing is claimed of the value. chrono panics when the system clock
/// stands before the Unix epoch.
#[verifier::external_body]
pub(crate) fn now_millis() -> (now: i64) {
    chrono::Utc::now().timestamp_millis()
}

} // verus!
