//! The two readings the stages take from outside: the wall clock and a random
//! number. Nothing is promised of either value.
use vstd::prelude::*;

verus! {

/// Relies on std::time::SystemTime::now, converted by
/// SystemTime::duration_since(UNIX_EPOCH): the wall clock in nanoseconds after
/// the Unix epoch, or `None` where the clock stands before the epoch. The wall
/// clock may go back, so nothing orders two readings.
#[verifier::external_body]
pub(crate) fn wall_clock_nanos() -> (r: Option<u128>) {
    std::time::SystemTime::now().duration_since(std::time::UNIX_EPOCH).ok().map(|d| d.as_nanos())
}

/// Relies on rand::random: a value drawn uniformly from all `u32` values by
/// the thread-local generator.
#[verifier::external_body]
pub(crate) fn random_u32() -> (r: u32) {
    rand::random::<u32>()
}

} // verus!
