//! Time: moments on a clock that only runs forward.

use vstd::prelude::*;

verus! {

/// `std::time::Instant`, as an opaque value.
#[verifier::external_type_specification]
#[verifier::external_body]
pub struct ExInstant(std::time::Instant);

/// `std::time::Instant::now` returns the current instant. Nothing is claimed of it.
pub assume_specification[ std::time::Instant::now ]() -> (r: std::time::Instant)
;

/// Calls `std::time::Instant::elapsed` and gives the duration in nanoseconds.
/// Nothing is claimed of the result: it depends on the clock alone.
#[verifier::external_body]
fn nanos_since(origin: &std::time::Instant) -> u64 {
    origin.elapsed().as_nanos() as u64
}

/// A moment: nanoseconds since the origin of a clock.
#[derive(Debug, Clone, Copy, PartialEq, Eq, Structural)]
pub struct Moment {
    pub nanos: u64,
}

impl Moment {
    /// The nanoseconds from `earlier` to this moment; zero where `earlier` is later.
    pub open spec fn since(self, earlier: Moment) -> u64 {
        if self.nanos >= earlier.nanos {
            (self.nanos - earlier.nanos) as u64
        } else {
            0
        }
    }

    /// The nanoseconds from `earlier` to this moment.
    pub fn nanos_after(self, earlier: Moment) -> (n: u64)
        ensures
            n == self.since(earlier),
    {
        if self.nanos >= earlier.nanos {
            self.nanos - earlier.nanos
        } else {
            0
        }
    }
}

/// A clock that was started at some instant.
#[derive(Debug, Clone, Copy)]
pub struct Clock {
    origin: std::time::Instant,
}

impl Clock {
    /// Starts a clock.
    pub fn start() -> Self {
        Clock { origin: std::time::Instant::now() }
    }

    /// The current moment.
    pub fn now(&self) -> Moment {
        Moment { nanos: nanos_since(&self.origin) }
    }
}

} // verus!
