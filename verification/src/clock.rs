//! The system clock, read through `chrono` and `std::time`.

use vstd::prelude::*;
use crate::models::transaction::Timestamp;

verus! {

/// Makes `std::time::Instant` known as an opaque type: a start of
/// measurement is carried through, never looked into.
#[verifier::external_type_specification]
#[verifier::external_body]
pub struct ExInstant(std::time::Instant);

/// Calls `chrono::Utc::now` and splits the result with `DateTime::timestamp`
/// and `DateTime::timestamp_subsec_nanos`.
///
/// Trusted, not proved: `now` builds its result from the sub-second part of
/// a duration since the Unix epoch, so the nanoseconds stay below one second
/// (no leap second is ever reported). Which instant comes back is the
/// clock's affair. `now` panics when the system clock stands before the
/// epoch.
#[verifier::external_body]
pub(crate) fn now() -> (t: Timestamp)
    ensures
        t.nanos < 1_000_000_000,
{
    let now = chrono::Utc::now();
    Timestamp { secs: now.timestamp(), nanos: now.timestamp_subsec_nanos() }
}

/// Calls `std::time::Instant::elapsed` and narrows `Duration::as_millis` to
/// 64 bits. Nothing is claimed of the result.
#[verifier::external_body]
pub(crate) fn elapsed_millis(started: &std::time::Instant) -> u64 {
    started.elapsed().as_millis() as u64
}

} // verus!
