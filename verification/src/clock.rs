//! The time at which messages arrive.
use vstd::prelude::*;

verus! {

/// A moment: seconds since the Unix epoch, and nanoseconds into the second.
#[derive(Clone, Copy, Debug, PartialEq, Eq, Structural)]
pub struct Timestamp {
    pub seconds: i64,
    pub nanoseconds: u32,
}

/// Calls `chrono::Utc::now`. Nothing is claimed of the result: it is whatever
/// the clock shows.
#[verifier::external_body]
pub(crate) fn now() -> (r: Timestamp) {
    let now = chrono::Utc::now();
    Timestamp { seconds: now.timestamp(), nanoseconds: now.timestamp_subsec_nanos() }
}

} // verus!
