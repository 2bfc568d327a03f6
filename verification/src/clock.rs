//! The clock callback: whole seconds since the Unix epoch, for the engine's
//! timing and retry bookkeeping.

use vstd::prelude::*;
use std::time::SystemTime;

verus! {

/// Relies on std::time::SystemTime::now for the current wall-clock time,
/// reduced to whole seconds since the Unix epoch. A host clock set before
/// the epoch reads as zero rather than failing: the engine only does timing
/// arithmetic with the value. Nothing is promised of the result — wall time
/// is not a function of anything the adapter holds.
#[verifier::external_body]
pub fn callback_get_system_time() -> u64 {
    match SystemTime::now().duration_since(SystemTime::UNIX_EPOCH) {
        Ok(elapsed) => elapsed.as_secs(),
        Err(_) => 0,
    }
}

} // verus!
