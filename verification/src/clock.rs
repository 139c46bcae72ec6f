//! Wall-clock access for round timestamps.

use vstd::prelude::*;

verus! {

/// Seconds since the Unix epoch, or zero if the system clock reads earlier
/// than the epoch. The value is taken from the machine's clock, so nothing
/// more can be promised of it.
/// Relies on std::time::SystemTime::now and SystemTime::duration_since.
#[verifier::external_body]
pub fn current_timestamp() -> u64 {
    match std::time::SystemTime::now().duration_since(std::time::UNIX_EPOCH) {
        Ok(d) => d.as_secs(),
        Err(_) => 0,
    }
}

} // verus!
