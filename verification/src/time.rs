//! Points in time, as the records of this crate carry them.

use vstd::prelude::*;

verus! {

/// A point in time: whole seconds since the Unix epoch and the nanoseconds
/// within that second.
#[derive(Clone, Copy, Debug, PartialEq, Eq, Structural)]
pub struct Timestamp {
    pub seconds: i64,
    pub nanos: u32,
}

impl Timestamp {
    /// `self` is the same instant as `earlier`, or a later one.
    pub open spec fn not_before(self, earlier: Timestamp) -> bool {
        self.seconds > earlier.seconds || (self.seconds == earlier.seconds && self.nanos
            >= earlier.nanos)
    }

    /// Decides `not_before`.
    pub fn is_not_before(&self, earlier: &Timestamp) -> (r: bool)
        ensures
            r == self.not_before(*earlier),
    {
        self.seconds > earlier.seconds || (self.seconds == earlier.seconds && self.nanos
            >= earlier.nanos)
    }
}

} // verus!
