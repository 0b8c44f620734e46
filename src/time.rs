use vstd::prelude::*;

verus! {

/// A point in time, held as a signed number of nanoseconds from the Unix
/// epoch (negative before it).
#[derive(Clone, Copy, Debug, PartialEq, Eq, Structural)]
pub struct Timestamp {
    pub nanos: i128,
}

impl View for Timestamp {
    type V = int;

    open spec fn view(&self) -> int {
        self.nanos as int
    }
}

impl Timestamp {
    /// The instant `nanos` nanoseconds after the Unix epoch.
    pub fn from_nanos(nanos: i128) -> (r: Timestamp)
        ensures
            r@ == nanos as int,
    {
        Timestamp { nanos }
    }

    /// Nanoseconds from the Unix epoch to this instant.
    pub fn as_nanos(&self) -> (r: i128)
        ensures
            r as int == self@,
    {
        self.nanos
    }

    /// Whether this instant lies strictly after `other`.
    pub fn is_after(&self, other: &Timestamp) -> (r: bool)
        ensures
            r == (self@ > other@),
    {
        self.nanos > other.nanos
    }
}

} // verus!
