//! The wall clock.

use vstd::prelude::*;
use std::time::{SystemTime, UNIX_EPOCH};

verus! {

/// Reads the machine's wall clock with `std::time::SystemTime::now` and hands
/// it back as whole milliseconds since the Unix epoch. Nothing is claimed of
/// the value, which depends on the clock of the machine; a clock set before
/// the epoch reads as 0.
#[verifier::external_body]
pub(crate) fn wall_clock_ms() -> (now: u64) {
    SystemTime::now().duration_since(UNIX_EPOCH).unwrap_or_default().as_millis() as u64
}

} // verus!
