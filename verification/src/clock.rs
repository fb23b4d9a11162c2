//! The current time.

use vstd::prelude::*;
use crate::model::Timestamp;

verus! {

/// The current time, from `chrono::Utc::now`, `chrono::DateTime::timestamp`
/// and `chrono::DateTime::timestamp_subsec_nanos`. Trusted, and nothing is
/// claimed of the value: the system clock may be set back between two calls.
/// `Utc::now` does not return where the system clock stands before the Unix
/// epoch.
#[verifier::external_body]
pub(crate) fn current_time() -> (now: Timestamp) {
    let t = chrono::Utc::now();
    Timestamp { secs: t.timestamp(), nanos: t.timestamp_subsec_nanos() }
}

} // verus!
