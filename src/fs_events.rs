//! Change-notification streams: the subscription request and the
//! start/stop/flush state machine of a stream.
use vstd::prelude::*;

pub mod context;
pub mod delivery;
pub mod point_in_time;

use crate::fs_events::context::{info_entries, FileSystemEventStreamContext};
use crate::fs_events::point_in_time::FSEventStreamPointInTime;
use crate::handle::NativeHandle;
use crate::queue::Queue;

verus! {

/// Where a stream stands in its lifetime.
#[derive(Clone, Copy, Debug, PartialEq, Eq, Structural)]
pub enum StreamState {
    /// No queue assigned, not started.
    Created,
    /// A queue assigned, not started.
    Configured,
    /// Started and delivering.
    Running,
}

/// An operation on a stream that depends on its state.
#[derive(Clone, Copy, Debug, PartialEq, Eq, Structural)]
pub enum StreamOperation {
    SetDispatchQueue,
    ExcludePaths,
    Start,
    Stop,
    Flush,
    FlushAsync,
}

/// Why a stream operation was refused.
#[derive(Clone, Copy, Debug, PartialEq, Eq, Structural)]
pub enum StreamError {
    /// The operation is not valid in the stream's current state.
    InvalidState { operation: StreamOperation, state: StreamState },
    /// The native creation call returned the null handle.
    NativeResourceUnavailable,
}

/// The state a stream moves to under an operation, or the refusal.
/// A queue can be assigned and paths excluded only before the start; the
/// start needs a queue and a stream that is not running; flushing needs a
/// running stream; stopping is always allowed.
pub open spec fn step(state: StreamState, op: StreamOperation) -> Result<StreamState, StreamError> {
    let refused = Err(StreamError::InvalidState { operation: op, state });
    match op {
        StreamOperation::SetDispatchQueue => if state == StreamState::Running {
            refused
        } else {
            Ok(StreamState::Configured)
        },
        StreamOperation::ExcludePaths => if state == StreamState::Running {
            refused
        } else {
            Ok(state)
        },
        StreamOperation::Start => if state == StreamState::Configured {
            Ok(StreamState::Running)
        } else {
            refused
        },
        StreamOperation::Stop => if state == StreamState::Running {
            Ok(StreamState::Configured)
        } else {
            Ok(state)
        },
        StreamOperation::Flush | StreamOperation::FlushAsync => if state == StreamState::Running {
            Ok(state)
        } else {
            refused
        },
    }
}

/// What the native layer needs to create a subscription: the watched paths
/// (an empty set is passed on as it is), the starting cursor and the
/// creation flag bits.
pub struct StreamRequest {
    pub paths: Vec<String>,
    pub since_when: u64,
    pub flags: u32,
}

/// Owned copies of the given paths, in order.
pub fn copy_paths(paths: &Vec<&str>) -> (r: Vec<String>)
    ensures
        r@.len() == paths@.len(),
        forall|i: int| 0 <= i < paths@.len() ==> #[trigger] r@[i]@ == paths@[i]@,
{
    let mut out: Vec<String> = Vec::new();
    let mut i: usize = 0;
    while i < paths.len()
        invariant
            i <= paths@.len(),
            out@.len() == i,
            forall|j: int| 0 <= j < i ==> #[trigger] out@[j]@ == paths@[j]@,
        decreases paths@.len() - i,
    {
        let p: &str = paths[i];
        out.push(p.to_owned());
        i = i + 1;
    }
    out
}

/// Lays out the request for a new subscription, and attaches the boxed user
/// callback at `callback` as the first entry of the context's auxiliary list.
pub fn prepare_stream<R, L, D>(
    paths_to_watch: &Vec<&str>,
    since_when: FSEventStreamPointInTime,
    flags: u32,
    callback: usize,
    context: &mut FileSystemEventStreamContext<R, L, D>,
) -> (r: StreamRequest)
    ensures
        r.paths@.len() == paths_to_watch@.len(),
        forall|i: int| 0 <= i < paths_to_watch@.len() ==> #[trigger] r.paths@[i]@ == paths_to_watch@[i]@,
        r.since_when == since_when.spec_cursor(),
        r.flags == flags,
        final(context).info is Some,
        info_entries(final(context).info) == seq![callback] + info_entries(old(context).info),
        final(context).version == old(context).version,
        final(context).retain == old(context).retain,
        final(context).release == old(context).release,
        final(context).copy_description == old(context).copy_description,
{
    let paths = copy_paths(paths_to_watch);
    context.merge_callback(callback);
    StreamRequest { paths, since_when: since_when.to_cursor(), flags }
}

/// A native change-notification subscription, whether it has been started,
/// and the queue it delivers on (borrowed for the stream's lifetime).
pub struct FileSystemEventStream<'a> {
    stream_ref: NativeHandle,
    is_started: bool,
    queue: Option<&'a Queue>,
}

impl<'a> FileSystemEventStream<'a> {
    /// A started stream always has a queue.
    pub open spec fn wf(&self) -> bool {
        self.spec_is_started() ==> self.spec_queue() is Some
    }

    pub closed spec fn spec_stream_ref(&self) -> NativeHandle {
        self.stream_ref
    }

    pub closed spec fn spec_is_started(&self) -> bool {
        self.is_started
    }

    pub closed spec fn spec_queue(&self) -> Option<&'a Queue> {
        self.queue
    }

    pub open spec fn spec_state(&self) -> StreamState {
        if self.spec_is_started() {
            StreamState::Running
        } else if self.spec_queue() is Some {
            StreamState::Configured
        } else {
            StreamState::Created
        }
    }

    /// Wraps the handle that the stream creation call returned: a stream in
    /// the created state, or an error for a null handle.
    pub fn from_created(addr: usize) -> (r: Result<Self, StreamError>)
        ensures
            addr == 0 <==> r is Err,
            addr == 0 ==> r == Err::<Self, StreamError>(StreamError::NativeResourceUnavailable),
            addr != 0 ==> (r matches Ok(s) && s.wf() && s.spec_stream_ref() == NativeHandle::Object(
                addr,
            ) && s.spec_state() == StreamState::Created),
    {
        if addr == 0 {
            Err(StreamError::NativeResourceUnavailable)
        } else {
            Ok(FileSystemEventStream { stream_ref: NativeHandle::Object(addr), is_started: false, queue: None })
        }
    }

    /// The native subscription.
    pub fn stream_ref(&self) -> (r: NativeHandle)
        ensures
            r == self.spec_stream_ref(),
    {
        self.stream_ref
    }

    /// Whether the stream has been started and not stopped since.
    pub fn is_started(&self) -> (r: bool)
        ensures
            r == self.spec_is_started(),
    {
        self.is_started
    }

    /// The queue the stream delivers on, if one was assigned.
    pub fn queue(&self) -> (r: Option<&'a Queue>)
        ensures
            r == self.spec_queue(),
    {
        self.queue
    }

    pub fn state(&self) -> (r: StreamState)
        ensures
            r == self.spec_state(),
    {
        if self.is_started {
            StreamState::Running
        } else if self.queue.is_some() {
            StreamState::Configured
        } else {
            StreamState::Created
        }
    }

    /// Assigns the delivery queue; refused once the stream runs.
    pub fn set_dispatch_queue(&mut self, queue: &'a Queue) -> (r: Result<(), StreamError>)
        requires
            old(self).wf(),
        ensures
            final(self).wf(),
            step(old(self).spec_state(), StreamOperation::SetDispatchQueue) matches Ok(s) ==> (r
                is Ok && final(self).spec_state() == s && final(self).spec_queue() == Some(queue)),
            step(old(self).spec_state(), StreamOperation::SetDispatchQueue) matches Err(e) ==> (r
                == Err::<(), StreamError>(e) && *final(self) == *old(self)),
            final(self).spec_stream_ref() == old(self).spec_stream_ref(),
    {
        if self.is_started {
            return Err(
                StreamError::InvalidState {
                    operation: StreamOperation::SetDispatchQueue,
                    state: StreamState::Running,
                },
            );
        }
        self.queue = Some(queue);
        Ok(())
    }

    /// Checks that paths may still be excluded and hands back owned copies of
    /// them for the native call; refused once the stream runs.
    pub fn exclude_paths(&self, paths_to_exclude: &Vec<&str>) -> (r: Result<Vec<String>, StreamError>)
        requires
            self.wf(),
        ensures
            step(self.spec_state(), StreamOperation::ExcludePaths) matches Err(e) ==> r == Err::<
                Vec<String>,
                StreamError,
            >(e),
            step(self.spec_state(), StreamOperation::ExcludePaths) is Ok ==> (r matches Ok(v)
                && v@.len() == paths_to_exclude@.len() && forall|i: int|
                0 <= i < paths_to_exclude@.len() ==> #[trigger] v@[i]@ == paths_to_exclude@[i]@),
    {
        if self.is_started {
            return Err(
                StreamError::InvalidState {
                    operation: StreamOperation::ExcludePaths,
                    state: StreamState::Running,
                },
            );
        }
        Ok(copy_paths(paths_to_exclude))
    }

    /// Starts delivery; needs an assigned queue and a stream not yet running.
    pub fn start(&mut self) -> (r: Result<(), StreamError>)
        requires
            old(self).wf(),
        ensures
            final(self).wf(),
            step(old(self).spec_state(), StreamOperation::Start) matches Ok(s) ==> (r is Ok
                && final(self).spec_state() == s && final(self).spec_queue() == old(
                self,
            ).spec_queue()),
            step(old(self).spec_state(), StreamOperation::Start) matches Err(e) ==> (r == Err::<
                (),
                StreamError,
            >(e) && *final(self) == *old(self)),
            final(self).spec_stream_ref() == old(self).spec_stream_ref(),
    {
        if self.is_started {
            return Err(
                StreamError::InvalidState { operation: StreamOperation::Start, state: StreamState::Running },
            );
        }
        if self.queue.is_none() {
            return Err(
                StreamError::InvalidState { operation: StreamOperation::Start, state: StreamState::Created },
            );
        }
        self.is_started = true;
        Ok(())
    }

    /// Halts delivery, keeping the subscription and its queue.
    pub fn stop(&mut self)
        requires
            old(self).wf(),
        ensures
            final(self).wf(),
            step(old(self).spec_state(), StreamOperation::Stop) == Ok::<StreamState, StreamError>(
                final(self).spec_state(),
            ),
            !final(self).spec_is_started(),
            final(self).spec_queue() == old(self).spec_queue(),
            final(self).spec_stream_ref() == old(self).spec_stream_ref(),
    {
        self.is_started = false;
    }

    /// Checks that buffered events may be flushed: only while running.
    pub fn flush(&self) -> (r: Result<(), StreamError>)
        requires
            self.wf(),
        ensures
            step(self.spec_state(), StreamOperation::Flush) is Ok ==> r is Ok,
            step(self.spec_state(), StreamOperation::Flush) matches Err(e) ==> r == Err::<(), StreamError>(e),
    {
        if !self.is_started {
            return Err(
                StreamError::InvalidState { operation: StreamOperation::Flush, state: self.state() },
            );
        }
        Ok(())
    }

    /// Checks that buffered events may be flushed asynchronously: only while
    /// running.
    pub fn flush_async(&self) -> (r: Result<(), StreamError>)
        requires
            self.wf(),
        ensures
            step(self.spec_state(), StreamOperation::FlushAsync) is Ok ==> r is Ok,
            step(self.spec_state(), StreamOperation::FlushAsync) matches Err(e) ==> r == Err::<(), StreamError>(e),
    {
        if !self.is_started {
            return Err(
                StreamError::InvalidState { operation: StreamOperation::FlushAsync, state: self.state() },
            );
        }
        Ok(())
    }
}

impl<'a> Clone for FileSystemEventStream<'a> {
    /// Another reference to the same subscription, with the same state.
    fn clone(&self) -> (r: Self)
        ensures
            r == *self,
    {
        FileSystemEventStream { stream_ref: self.stream_ref, is_started: self.is_started, queue: self.queue }
    }
}

/// Once a stream runs, assigning a queue or excluding paths is refused with
/// an invalid-state error that names the operation, and the stream stays as
/// it was; this holds right after any successful start.
pub proof fn lemma_no_reconfiguration_while_running(state: StreamState)
    ensures
        step(StreamState::Running, StreamOperation::SetDispatchQueue) == Err::<StreamState, StreamError>(
            StreamError::InvalidState {
                operation: StreamOperation::SetDispatchQueue,
                state: StreamState::Running,
            },
        ),
        step(StreamState::Running, StreamOperation::ExcludePaths) == Err::<StreamState, StreamError>(
            StreamError::InvalidState { operation: StreamOperation::ExcludePaths, state: StreamState::Running },
        ),
        step(state, StreamOperation::Start) matches Ok(s) ==> (step(s, StreamOperation::SetDispatchQueue) is Err
            && step(s, StreamOperation::ExcludePaths) is Err),
{
}

} // verus!
