//! The wall clock.

use vstd::prelude::*;

verus! {

/// Reads `chrono::Local::now` and hands it out as `timestamp_millis`, the
/// milliseconds since the Unix epoch. Not proved, and nothing is claimed of
/// the number: two readings may be in any order. chrono refuses a system
/// clock that is set before 1970.
#[verifier::external_body]
pub(crate) fn now_millis() -> i64 {
    chrono::Local::now().timestamp_millis()
}

} // verus!
