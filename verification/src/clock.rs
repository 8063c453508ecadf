//! The wall clock, read once per capture to stamp a snapshot.

use vstd::prelude::*;

verus! {

/// Milliseconds since the Unix epoch.
///
/// Relies on std::time::SystemTime::now and
/// SystemTime::duration_since(UNIX_EPOCH): a wall-clock read. Nothing useful
/// can be promised of the value — the clock may be set to anything, so a
/// clock before the epoch reads as zero rather than failing.
#[verifier::external_body]
pub fn now_ms() -> u64 {
    match std::time::SystemTime::now().duration_since(std::time::SystemTime::UNIX_EPOCH) {
        Ok(elapsed) => elapsed.as_millis() as u64,
        Err(_) => 0,
    }
}

} // verus!
