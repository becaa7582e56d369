//! Readings of the machine's monotonic clock, in nanoseconds since the
//! clock value was made.

use std::time::Instant;
use vstd::prelude::*;

verus! {

/// `std::time::Instant`. Nothing is known of its value.
#[verifier::external_type_specification]
#[verifier::external_body]
pub struct ExInstant(Instant);

/// Calls `std::time::Instant::now`. Nothing is claimed of the instant: it
/// is the time of the call.
#[verifier::external_body]
fn instant_now() -> Instant {
    Instant::now()
}

/// Calls `std::time::Instant::elapsed` on `origin` and gives the span in
/// nanoseconds. Nothing is claimed of the span: it is the time since
/// `origin` at the moment of the call.
#[verifier::external_body]
fn nanos_since(origin: &Instant) -> u128 {
    origin.elapsed().as_nanos()
}

/// A clock that counts from the moment it was made.
pub struct Clock {
    origin: Instant,
}

impl Clock {
    /// A clock that counts from now.
    pub fn new() -> Clock {
        Clock { origin: instant_now() }
    }

    /// Nanoseconds since the clock was made.
    pub fn now(&self) -> u128 {
        nanos_since(&self.origin)
    }
}

} // verus!
