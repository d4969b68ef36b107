//! Where in the change history a subscription starts.
use vstd::prelude::*;

verus! {

/// The identifier of an event in the change history.
pub type FSEventStreamEventId = u64;

/// The starting point of a subscription.
#[derive(Clone, Copy, Debug, PartialEq, Eq, Structural)]
pub enum FSEventStreamPointInTime {
    SinceNow,
    Since(FSEventStreamEventId),
    SinceStartOfTime,
}

impl FSEventStreamPointInTime {
    /// The 64-bit cursor for this starting point: zero for now and for the
    /// start of time, the event id itself otherwise.
    pub open spec fn spec_cursor(self) -> u64 {
        match self {
            FSEventStreamPointInTime::SinceNow => 0,
            FSEventStreamPointInTime::Since(id) => id,
            FSEventStreamPointInTime::SinceStartOfTime => 0,
        }
    }

    pub fn to_cursor(&self) -> (r: u64)
        ensures
            r == self.spec_cursor(),
    {
        match self {
            FSEventStreamPointInTime::SinceNow => 0,
            FSEventStreamPointInTime::Since(id) => *id,
            FSEventStreamPointInTime::SinceStartOfTime => 0,
        }
    }
}

} // verus!
