//! Checking and unpacking one batch of change records from the native layer.
use vstd::prelude::*;

use crate::fs_events::context::info_entries;

verus! {

/// One batch of change records as three parallel lists: paths, flag bits
/// and event ids.
pub struct EventBatch {
    pub num_events: isize,
    pub paths: Vec<String>,
    pub flags: Vec<u32>,
    pub ids: Vec<u64>,
}

/// A batch that breaks the native delivery contract.
#[derive(Clone, Copy, Debug, PartialEq, Eq, Structural)]
pub enum DeliveryError {
    /// The three lists differ in length from the announced count.
    LengthMismatch,
    /// The auxiliary list holds no callback entry.
    MissingCallback,
}

/// What to do with one native callback invocation.
pub enum Delivery {
    /// No records: the user callback is not called.
    Nothing,
    /// Call the user callback at `callback` with the caller's auxiliary
    /// entries and the batch.
    Call { callback: usize, info: Vec<usize>, batch: EventBatch },
}

/// The three lists all hold `n` records.
pub open spec fn lengths_agree(n: int, paths: Seq<String>, flags: Seq<u32>, ids: Seq<u64>) -> bool {
    paths.len() == n && flags.len() == n && ids.len() == n
}

/// Checks a native callback invocation and splits the auxiliary list into
/// the user callback (its first entry) and the caller's own entries.
/// A count of zero or less delivers nothing; then the three lists must hold
/// the announced count each, and the auxiliary list must hold the callback.
pub fn prepare_delivery(
    info: &Option<Vec<usize>>,
    num_events: isize,
    paths: Vec<String>,
    flags: Vec<u32>,
    ids: Vec<u64>,
) -> (r: Result<Delivery, DeliveryError>)
    ensures
        num_events <= 0 ==> r matches Ok(Delivery::Nothing),
        num_events > 0 && !lengths_agree(num_events as int, paths@, flags@, ids@) ==> r == Err::<
            Delivery,
            DeliveryError,
        >(DeliveryError::LengthMismatch),
        num_events > 0 && lengths_agree(num_events as int, paths@, flags@, ids@) && info_entries(
            *info,
        ).len() == 0 ==> r == Err::<Delivery, DeliveryError>(DeliveryError::MissingCallback),
        num_events > 0 && lengths_agree(num_events as int, paths@, flags@, ids@) && info_entries(
            *info,
        ).len() > 0 ==> (r matches Ok(Delivery::Call { callback, info: rest, batch }) && callback
            == info_entries(*info)[0] && rest@ == info_entries(*info).skip(1) && batch.num_events
            == num_events && batch.paths@ == paths@ && batch.flags@ == flags@ && batch.ids@
            == ids@),
{
    if num_events <= 0 {
        return Ok(Delivery::Nothing);
    }
    let n = num_events as usize;
    if paths.len() != n || flags.len() != n || ids.len() != n {
        return Err(DeliveryError::LengthMismatch);
    }
    match info {
        None => Err(DeliveryError::MissingCallback),
        Some(entries) => {
            if entries.len() < 1 {
                return Err(DeliveryError::MissingCallback);
            }
            let callback = entries[0];
            let mut rest: Vec<usize> = Vec::new();
            let mut i: usize = 1;
            while i < entries.len()
                invariant
                    1 <= i <= entries@.len(),
                    rest@ == entries@.subrange(1, i as int),
                decreases entries@.len() - i,
            {
                rest.push(entries[i]);
                i = i + 1;
            }
            assert(rest@ == entries@.skip(1));
            Ok(
                Delivery::Call {
                    callback,
                    info: rest,
                    batch: EventBatch { num_events, paths, flags, ids },
                },
            )
        },
    }
}

} // verus!
