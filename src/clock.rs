//! Timestamps of a monotonic frame clock, in microseconds.
use vstd::prelude::*;

verus! {

/// A point in time, in microseconds since an arbitrary origin.
#[derive(Clone, Copy, Debug, PartialEq, Eq, Structural)]
pub struct Instant(pub u64);

impl Instant {
    /// The microseconds from `earlier` to `self`; zero when `earlier` is later, so that a
    /// clock that steps back never yields a negative span.
    pub fn duration_since(&self, earlier: Instant) -> (r: u64)
        ensures
            r == if self.0 >= earlier.0 {
                self.0 - earlier.0
            } else {
                0
            },
    {
        if self.0 >= earlier.0 {
            self.0 - earlier.0
        } else {
            0
        }
    }

    /// The instant `micros` microseconds later, if it can be represented.
    pub fn checked_add(&self, micros: u64) -> (r: Option<Instant>)
        ensures
            r == if self.0 + micros <= u64::MAX {
                Some(Instant((self.0 + micros) as u64))
            } else {
                None
            },
    {
        if micros <= u64::MAX - self.0 {
            Some(Instant(self.0 + micros))
        } else {
            None
        }
    }

    /// The instant `micros` microseconds earlier, if it is not before the origin.
    pub fn checked_sub(&self, micros: u64) -> (r: Option<Instant>)
        ensures
            r == if micros <= self.0 {
                Some(Instant((self.0 - micros) as u64))
            } else {
                None
            },
    {
        if micros <= self.0 {
            Some(Instant(self.0 - micros))
        } else {
            None
        }
    }
}

} // verus!
