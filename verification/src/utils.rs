//! Small host utilities.

use std::time::SystemTime;
use std::time::UNIX_EPOCH;
use vstd::prelude::*;

verus! {

/// Relies on `std::time::SystemTime::now` and
/// `SystemTime::duration_since(UNIX_EPOCH)`: the wall clock as a count
/// of milliseconds since the Unix epoch. Nothing can be promised of a
/// clock reading; panics if the clock reads before the epoch, as a
/// duration since then does not exist.
#[verifier::external_body]
fn unix_millis() -> usize {
    SystemTime::now()
        .duration_since(UNIX_EPOCH)
        .expect("system clock reads before the Unix epoch")
        .as_millis() as usize
}

/// The current time in milliseconds since the Unix epoch, as the host
/// clock reports it.
pub fn systime() -> usize {
    unix_millis()
}

} // verus!
