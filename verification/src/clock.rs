//! Access to the wall clock.

use vstd::prelude::*;

verus! {

/// Relies on std::time::SystemTime::now and SystemTime::duration_since:
/// the wall-clock time as whole milliseconds since the Unix epoch, or
/// `None` when the clock reads before the epoch. Nothing further can be
/// promised of a clock reading.
#[verifier::external_body]
pub(crate) fn now_millis_since_epoch() -> Option<u64> {
    std::time::SystemTime::now().duration_since(std::time::UNIX_EPOCH).ok().map(
        |d| d.as_millis() as u64,
    )
}

} // verus!
