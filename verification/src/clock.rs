//! Trusted access to the system clock.

use vstd::prelude::*;

verus! {

/// Relies on std::time::SystemTime::now, read as nanoseconds since the
/// Unix epoch through Duration::as_nanos; zero when the clock lies before
/// the epoch. Nothing is promised of the value: it moves with the
/// machine's clock, so callers state what holds of every outcome.
#[verifier::external_body]
pub fn current_unix_nanos() -> u128 {
    std::time::SystemTime::now()
        .duration_since(std::time::UNIX_EPOCH)
        .unwrap_or(std::time::Duration::ZERO)
        .as_nanos()
}

} // verus!
