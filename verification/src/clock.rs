//! The process clock, behind a single trusted call.

use vstd::prelude::*;

verus! {

/// Relies on `chrono::Utc::now`: reads the system clock and returns the
/// current unix timestamp in seconds. The result depends on the clock, so
/// nothing is promised of it; every caller states what holds of its own
/// result whatever the clock said.
#[verifier::external_body]
pub fn now_seconds() -> i64 {
    chrono::Utc::now().timestamp()
}

} // verus!
