//! Execution discipline of a created queue.
use vstd::prelude::*;

verus! {

/// Native selector of a serial queue (the null attribute).
pub const DISPATCH_QUEUE_SERIAL: u8 = 0;

/// Native selector of a concurrent queue.
pub const DISPATCH_QUEUE_CONCURRENT: u8 = 1;

/// Whether a created queue runs one work item at a time or several.
#[derive(Clone, Copy, Debug, PartialEq, Eq, Structural)]
pub enum QueueAttr {
    Serial,
    Concurrent,
}

impl QueueAttr {
    /// The native selector of this discipline.
    pub open spec fn spec_raw(self) -> u8 {
        match self {
            QueueAttr::Serial => DISPATCH_QUEUE_SERIAL,
            QueueAttr::Concurrent => DISPATCH_QUEUE_CONCURRENT,
        }
    }

    pub fn to_raw(&self) -> (r: u8)
        ensures
            r == self.spec_raw(),
    {
        match self {
            QueueAttr::Serial => DISPATCH_QUEUE_SERIAL,
            QueueAttr::Concurrent => DISPATCH_QUEUE_CONCURRENT,
        }
    }

    /// The discipline with native selector `raw`.
    pub fn from_raw(raw: u8) -> (r: Self)
        requires
            raw == DISPATCH_QUEUE_SERIAL || raw == DISPATCH_QUEUE_CONCURRENT,
        ensures
            r.spec_raw() == raw,
    {
        if raw == DISPATCH_QUEUE_SERIAL {
            QueueAttr::Serial
        } else {
            QueueAttr::Concurrent
        }
    }
}

} // verus!
