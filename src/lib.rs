//! Safe wrappers over the platform dispatch and file-change notification
//! services: deadline encoding, queue and group handles, the notification
//! stream state machine and the decoding of delivered change batches.
use vstd::prelude::*;

pub mod fs_events;
pub mod group;
pub mod handle;
pub mod queue;
pub mod time;
pub mod work;

verus! {

} // verus!
