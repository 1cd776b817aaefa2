//! Reading the system clock.

use vstd::prelude::*;

verus! {

/// Calls `std::time::SystemTime::now` and measures the time since
/// `UNIX_EPOCH` in whole seconds; `None` when the clock stands before the
/// epoch. Nothing is known of the value: it differs from call to call.
#[verifier::external_body]
pub(crate) fn unix_time_now() -> Option<u64> {
    match std::time::SystemTime::now().duration_since(std::time::UNIX_EPOCH) {
        Ok(elapsed) => Some(elapsed.as_secs()),
        Err(_) => None,
    }
}

} // verus!
