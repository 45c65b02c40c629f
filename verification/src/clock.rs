//! Monotonic time as a plain number of nanoseconds.

use std::time::Instant;
use vstd::prelude::*;

verus! {

/// `std::time::Instant`, opaque to the verifier.
#[verifier::external_type_specification]
#[verifier::external_body]
pub struct ExInstant(Instant);

/// Calls `std::time::Instant::now`.  Trusted; nothing is claimed of the result.
#[verifier::external_body]
fn instant_now() -> Instant {
    Instant::now()
}

/// Calls `std::time::Instant::elapsed` on `origin` and hands the duration back
/// in whole nanoseconds.  Trusted; nothing is claimed of the result, which
/// differs from call to call.
#[verifier::external_body]
fn nanos_since(origin: &Instant) -> u128 {
    origin.elapsed().as_nanos()
}

/// `nanos` as a `u64`, or the largest `u64` where it does not fit.
pub open spec fn saturate(nanos: u128) -> u64 {
    if nanos > u64::MAX {
        u64::MAX
    } else {
        nanos as u64
    }
}

/// Narrows a count of nanoseconds to 64 bits, saturating at `u64::MAX`
/// (more than five centuries).
pub fn saturating_nanos(nanos: u128) -> (r: u64)
    ensures
        r == saturate(nanos),
{
    if nanos > 0xffff_ffff_ffff_ffff {
        0xffff_ffff_ffff_ffff
    } else {
        nanos as u64
    }
}

/// A monotonic clock that counts nanoseconds from the moment it was started.
pub struct Clock {
    origin: Instant,
}

impl Clock {
    /// A clock that starts counting now.
    pub fn start() -> Clock {
        Clock { origin: instant_now() }
    }

    /// Nanoseconds since the clock was started.  Every reading may differ.
    pub fn now(&self) -> u64 {
        saturating_nanos(nanos_since(&self.origin))
    }
}

} // verus!
