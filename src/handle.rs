//! Identity of an externally reference-counted native object.
use vstd::prelude::*;

verus! {

/// Names a native object: the process-wide main queue, the global queue of
/// a priority class (both known without asking the native layer), or an
/// object that a creation call returned, by its address.
#[derive(Clone, Copy, Debug, PartialEq, Eq, Structural)]
pub enum NativeHandle {
    Null,
    MainQueue,
    GlobalQueue(i64),
    Object(usize),
}

impl NativeHandle {
    /// The handle names no object.
    pub open spec fn spec_is_null(self) -> bool {
        match self {
            NativeHandle::Null => true,
            NativeHandle::Object(addr) => addr == 0,
            _ => false,
        }
    }

    /// The handle for the object at `addr`; a zero address is the null handle.
    pub fn from_addr(addr: usize) -> (r: NativeHandle)
        ensures
            addr == 0 ==> r == NativeHandle::Null,
            addr != 0 ==> r == NativeHandle::Object(addr),
    {
        if addr == 0 {
            NativeHandle::Null
        } else {
            NativeHandle::Object(addr)
        }
    }

    pub fn is_null(&self) -> (r: bool)
        ensures
            r == self.spec_is_null(),
    {
        match self {
            NativeHandle::Null => true,
            NativeHandle::Object(addr) => *addr == 0,
            _ => false,
        }
    }
}

/// Why a native call could not be wrapped or made.
#[derive(Clone, Copy, Debug, PartialEq, Eq, Structural)]
pub enum DispatchError {
    /// A creation call returned the null handle.
    NativeResourceUnavailable,
    /// A queue label holds a zero byte at this position.
    InteriorNul(usize),
}

} // verus!
