//! The wall clock.

use vstd::prelude::*;

verus! {

/// Reads the clock with `chrono::Utc::now` and returns the instant as
/// milliseconds since the Unix epoch (`DateTime::timestamp_millis`).
///
/// Nothing is claimed of the value: the clock may stand anywhere and may be
/// set back between two readings.
///
/// `Utc::now` panics when the machine's clock reads an instant before 1970.
/// That is a state of the machine and not an argument, so no precondition
/// can leave it out: on such a machine every function that reads the clock
/// unwinds here.
#[verifier::external_body]
pub(crate) fn now_millis() -> (now: i64) {
    chrono::Utc::now().timestamp_millis()
}

} // verus!
