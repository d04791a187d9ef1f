//! Elapsed-time source for line stamps.

use vstd::prelude::*;

verus! {

/// Relies on `embassy_time::Instant::now` and `Instant::as_millis`: the
/// milliseconds elapsed since boot.  Nothing is promised of the value; every
/// caller states what holds whatever time comes back.
#[verifier::external_body]
pub(crate) fn now_millis() -> u64 {
    embassy_time::Instant::now().as_millis()
}

} // verus!
