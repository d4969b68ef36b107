//! Task groups: tracked units of outstanding work.
use vstd::prelude::*;

use crate::handle::{DispatchError, NativeHandle};

verus! {

/// A reference-counted native task group.
pub struct Group {
    ptr: NativeHandle,
}

impl Group {
    pub closed spec fn spec_ptr(&self) -> NativeHandle {
        self.ptr
    }

    /// The native group that this value refers to.
    pub fn ptr(&self) -> (r: NativeHandle)
        ensures
            r == self.spec_ptr(),
    {
        self.ptr
    }

    /// Wraps the handle that the group creation call returned; a null handle
    /// is an error rather than a group.
    pub fn from_created(addr: usize) -> (r: Result<Group, DispatchError>)
        ensures
            addr == 0 <==> r == Err::<Group, DispatchError>(DispatchError::NativeResourceUnavailable),
            addr != 0 ==> (r matches Ok(g) && g.spec_ptr() == NativeHandle::Object(addr)),
    {
        if addr == 0 {
            Err(DispatchError::NativeResourceUnavailable)
        } else {
            Ok(Group { ptr: NativeHandle::Object(addr) })
        }
    }

    /// Registers one unit of outstanding work, which ends with the guard.
    pub fn enter(&self) -> (r: GroupEnterGuard)
        ensures
            r.spec_group().spec_ptr() == self.spec_ptr(),
    {
        GroupEnterGuard::new(self)
    }

    /// Suspends the group's execution for as long as the guard lives.
    pub fn suspend(&self) -> (r: GroupExecutionGuard)
        ensures
            r.spec_group().spec_ptr() == self.spec_ptr(),
    {
        GroupExecutionGuard::new(self)
    }
}

impl Clone for Group {
    /// Another reference to the same native group.
    fn clone(&self) -> (r: Self)
        ensures
            r.spec_ptr() == self.spec_ptr(),
    {
        Group { ptr: self.ptr }
    }
}

/// One registered unit of outstanding work in a group.
pub struct GroupEnterGuard {
    group: Group,
}

impl GroupEnterGuard {
    pub closed spec fn spec_group(&self) -> Group {
        self.group
    }

    /// One unit of work on `group`, holding its own reference to it.
    pub fn new(group: &Group) -> (r: Self)
        ensures
            r.spec_group().spec_ptr() == group.spec_ptr(),
    {
        GroupEnterGuard { group: group.clone() }
    }

    /// The group that the unit belongs to.
    pub fn group(&self) -> (r: &Group)
        ensures
            r == self.spec_group(),
    {
        &self.group
    }
}

impl Clone for GroupEnterGuard {
    /// A further unit of work on the same group.
    fn clone(&self) -> (r: Self)
        ensures
            r.spec_group().spec_ptr() == self.spec_group().spec_ptr(),
    {
        GroupEnterGuard::new(&self.group)
    }
}

/// One suspension of a group; the group resumes when it ends.
pub struct GroupExecutionGuard {
    group: Group,
}

impl GroupExecutionGuard {
    pub closed spec fn spec_group(&self) -> Group {
        self.group
    }

    /// A suspension of `group`, holding its own reference to it.
    pub fn new(group: &Group) -> (r: Self)
        ensures
            r.spec_group().spec_ptr() == group.spec_ptr(),
    {
        GroupExecutionGuard { group: group.clone() }
    }

    /// The suspended group.
    pub fn group(&self) -> (r: &Group)
        ensures
            r == self.spec_group(),
    {
        &self.group
    }
}

impl Clone for GroupExecutionGuard {
    /// A further suspension of the same group.
    fn clone(&self) -> (r: Self)
        ensures
            r.spec_group().spec_ptr() == self.spec_group().spec_ptr(),
    {
        GroupExecutionGuard::new(&self.group)
    }
}

} // verus!
