//! Priority classes of the shared global queues.
use vstd::prelude::*;

verus! {

pub const DISPATCH_QUEUE_PRIORITY_HIGH: i64 = 2;
pub const DISPATCH_QUEUE_PRIORITY_DEFAULT: i64 = 0;
pub const DISPATCH_QUEUE_PRIORITY_LOW: i64 = -2;
pub const DISPATCH_QUEUE_PRIORITY_BACKGROUND: i64 = -32768;

/// The priority class that selects one of the global queues.
#[derive(Clone, Copy, Debug, PartialEq, Eq, Structural)]
pub enum QueuePriority {
    High,
    Default,
    Low,
    Background,
}

/// The native identifiers of the priority classes.
pub open spec fn is_priority_raw(raw: i64) -> bool {
    raw == DISPATCH_QUEUE_PRIORITY_HIGH || raw == DISPATCH_QUEUE_PRIORITY_DEFAULT || raw
        == DISPATCH_QUEUE_PRIORITY_LOW || raw == DISPATCH_QUEUE_PRIORITY_BACKGROUND
}

impl QueuePriority {
    /// The native identifier of this priority class.
    pub open spec fn spec_raw(self) -> i64 {
        match self {
            QueuePriority::High => DISPATCH_QUEUE_PRIORITY_HIGH,
            QueuePriority::Default => DISPATCH_QUEUE_PRIORITY_DEFAULT,
            QueuePriority::Low => DISPATCH_QUEUE_PRIORITY_LOW,
            QueuePriority::Background => DISPATCH_QUEUE_PRIORITY_BACKGROUND,
        }
    }

    pub fn to_raw(&self) -> (r: i64)
        ensures
            r == self.spec_raw(),
            is_priority_raw(r),
    {
        match self {
            QueuePriority::High => DISPATCH_QUEUE_PRIORITY_HIGH,
            QueuePriority::Default => DISPATCH_QUEUE_PRIORITY_DEFAULT,
            QueuePriority::Low => DISPATCH_QUEUE_PRIORITY_LOW,
            QueuePriority::Background => DISPATCH_QUEUE_PRIORITY_BACKGROUND,
        }
    }

    /// The priority class with native identifier `raw`.
    pub fn from_raw(raw: i64) -> (r: Self)
        requires
            is_priority_raw(raw),
        ensures
            r.spec_raw() == raw,
    {
        if raw == DISPATCH_QUEUE_PRIORITY_HIGH {
            QueuePriority::High
        } else if raw == DISPATCH_QUEUE_PRIORITY_DEFAULT {
            QueuePriority::Default
        } else if raw == DISPATCH_QUEUE_PRIORITY_LOW {
            QueuePriority::Low
        } else {
            QueuePriority::Background
        }
    }
}

} // verus!
