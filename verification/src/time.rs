//! The wall-clock time source, consumed once per block construction.

use vstd::prelude::*;

verus! {

/// Relies on std::time::SystemTime::now and duration_since: the time since
/// the Unix epoch in milliseconds, or nothing for a clock reading before the
/// epoch. Nothing is assumed of the value.
#[verifier::external_body]
fn millis_since_epoch() -> Option<u128> {
    match std::time::SystemTime::now().duration_since(std::time::UNIX_EPOCH) {
        Ok(elapsed) => Some(elapsed.as_millis()),
        Err(_) => None,
    }
}

/// Returns the current time in milliseconds since the Unix epoch; a clock
/// that reads before the epoch counts as zero.
pub fn current_time_millis() -> u128 {
    match millis_since_epoch() {
        Some(millis) => millis,
        None => 0,
    }
}

} // verus!
