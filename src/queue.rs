//! Work queues: the main queue, the global queues and created queues.
use vstd::prelude::*;
use vstd::string::StringSliceAdditionalSpecFns;

pub mod attr;
pub mod priority;

use crate::handle::{DispatchError, NativeHandle};
use crate::queue::attr::QueueAttr;
use crate::queue::priority::QueuePriority;

verus! {

/// A reference-counted native work queue.
pub struct Queue {
    pub ptr: NativeHandle,
}

/// Whether `bytes` holds no zero byte.
pub open spec fn has_no_nul(bytes: Seq<u8>) -> bool {
    forall|i: int| 0 <= i < bytes.len() ==> bytes[i] != 0
}

/// What the native layer needs to create a queue: its label as a
/// zero-terminated byte string, and the selector of its discipline.
pub struct QueueCreation {
    pub label: Vec<u8>,
    pub attr: u8,
}

impl Queue {
    /// The process-wide main queue.
    pub fn main() -> (r: Queue)
        ensures
            r.ptr == NativeHandle::MainQueue,
    {
        Queue { ptr: NativeHandle::MainQueue }
    }

    /// The shared global queue of a priority class.
    pub fn global(priority: QueuePriority) -> (r: Queue)
        ensures
            r.ptr == NativeHandle::GlobalQueue(priority.spec_raw()),
    {
        Queue { ptr: NativeHandle::GlobalQueue(priority.to_raw()) }
    }

    /// Checks a label and lays out the request for a new queue; a label that
    /// holds a zero byte is rejected with the position of the first one.
    pub fn prepare_create(label: &str, attr: QueueAttr) -> (r: Result<QueueCreation, DispatchError>)
        ensures
            match r {
                Ok(c) => has_no_nul(label.spec_bytes()) && c.label@ == label.spec_bytes().push(0)
                    && c.attr == attr.spec_raw(),
                Err(DispatchError::InteriorNul(i)) => i < label.spec_bytes().len()
                    && label.spec_bytes()[i as int] == 0 && has_no_nul(
                    label.spec_bytes().subrange(0, i as int),
                ),
                Err(_) => false,
            },
    {
        let bytes = label.as_bytes();
        let mut out: Vec<u8> = Vec::new();
        let mut i: usize = 0;
        while i < bytes.len()
            invariant
                i <= bytes@.len(),
                bytes@ == label.spec_bytes(),
                out@ == bytes@.subrange(0, i as int),
                has_no_nul(out@),
            decreases bytes@.len() - i,
        {
            if bytes[i] == 0 {
                return Err(DispatchError::InteriorNul(i));
            }
            out.push(bytes[i]);
            i = i + 1;
            assert(out@ == bytes@.subrange(0, i as int));
        }
        assert(out@ == bytes@);
        out.push(0);
        Ok(QueueCreation { label: out, attr: attr.to_raw() })
    }

    /// Wraps the handle that a creation call returned; a null handle is an
    /// error rather than a queue.
    pub fn from_created(addr: usize) -> (r: Result<Queue, DispatchError>)
        ensures
            addr == 0 <==> r == Err::<Queue, DispatchError>(DispatchError::NativeResourceUnavailable),
            addr != 0 ==> (r matches Ok(q) && q.ptr == NativeHandle::Object(addr)),
    {
        if addr == 0 {
            Err(DispatchError::NativeResourceUnavailable)
        } else {
            Ok(Queue { ptr: NativeHandle::Object(addr) })
        }
    }

    /// Suspends the queue for as long as the returned guard lives.
    pub fn suspend(&self) -> (r: QueueExecutionGuard)
        ensures
            r.spec_queue().ptr == self.ptr,
    {
        QueueExecutionGuard::new(self)
    }
}

impl Clone for Queue {
    /// Another reference to the same native queue.
    fn clone(&self) -> (r: Self)
        ensures
            r.ptr == self.ptr,
    {
        Queue { ptr: self.ptr }
    }
}

/// One suspension of a queue; the queue resumes when it ends.
pub struct QueueExecutionGuard {
    queue: Queue,
}

impl QueueExecutionGuard {
    pub closed spec fn spec_queue(&self) -> Queue {
        self.queue
    }

    /// A suspension of `queue`, holding its own reference to it.
    pub fn new(queue: &Queue) -> (r: Self)
        ensures
            r.spec_queue().ptr == queue.ptr,
    {
        QueueExecutionGuard { queue: queue.clone() }
    }

    /// The suspended queue.
    pub fn queue(&self) -> (r: &Queue)
        ensures
            r == self.spec_queue(),
    {
        &self.queue
    }
}

impl Clone for QueueExecutionGuard {
    /// A further suspension of the same queue.
    fn clone(&self) -> (r: Self)
        ensures
            r.spec_queue().ptr == self.spec_queue().ptr,
    {
        QueueExecutionGuard::new(&self.queue)
    }
}

} // verus!
