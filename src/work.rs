//! Invocation of work handed across the native callback boundary.
use vstd::prelude::*;

verus! {

/// Takes the work out of `slot` and runs it. The slot is empty afterwards,
/// so work reached from two paths runs at most once; an empty slot runs
/// nothing.
pub fn run_slot<T, F: FnOnce() -> T>(slot: &mut Option<F>) -> (r: Option<T>)
    requires
        *old(slot) matches Some(f) ==> f.requires(()),
    ensures
        *final(slot) is None,
        *old(slot) is None ==> r is None,
        *old(slot) matches Some(f) ==> (r matches Some(v) && f.ensures((), v)),
{
    match slot.take() {
        Some(work) => Some(work()),
        None => None,
    }
}

/// Runs work that was handed over whole; it is consumed by the call.
pub fn run_owned<T, F: FnOnce() -> T>(work: F) -> (r: T)
    requires
        work.requires(()),
    ensures
        work.ensures((), r),
{
    work()
}

/// Runs one index of work that is shared across several indices.
pub fn run_indexed<F: Fn(usize)>(work: &F, index: usize)
    requires
        work.requires((index,)),
    ensures
        work.ensures((index,), ()),
{
    work(index)
}

} // verus!
