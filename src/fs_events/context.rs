//! The context attached to a notification subscription.
use vstd::prelude::*;

verus! {

/// The auxiliary entries of a context, empty where it has none.
pub open spec fn info_entries(info: Option<Vec<usize>>) -> Seq<usize> {
    match info {
        Some(v) => v@,
        None => Seq::empty(),
    }
}

/// A protocol version, an ordered list of opaque auxiliary pointers (owned by
/// the caller) and optional retain, release and copy-description hooks for
/// them, of the hook types `R`, `L` and `D`.
pub struct FileSystemEventStreamContext<R, L, D> {
    pub version: u32,
    pub info: Option<Vec<usize>>,
    pub retain: Option<R>,
    pub release: Option<L>,
    pub copy_description: Option<D>,
}

impl<R, L, D> FileSystemEventStreamContext<R, L, D> {
    /// Version zero, no hooks, the given auxiliary list.
    pub fn init(info: Option<Vec<usize>>) -> (r: Self)
        ensures
            r.version == 0,
            r.info == info,
            r.retain is None,
            r.release is None,
            r.copy_description is None,
    {
        FileSystemEventStreamContext {
            version: 0,
            info,
            retain: None,
            release: None,
            copy_description: None,
        }
    }

    /// The full form, with all three hooks.
    pub fn init_with_callbacks(
        version: u32,
        info: Option<Vec<usize>>,
        retain: R,
        release: L,
        copy_description: D,
    ) -> (r: Self)
        ensures
            r.version == version,
            r.info == info,
            r.retain == Some(retain),
            r.release == Some(release),
            r.copy_description == Some(copy_description),
    {
        FileSystemEventStreamContext {
            version,
            info,
            retain: Some(retain),
            release: Some(release),
            copy_description: Some(copy_description),
        }
    }

    /// Replaces the auxiliary list.
    pub(crate) fn update_info_container(&mut self, info: Option<Vec<usize>>)
        ensures
            final(self).info == info,
            final(self).version == old(self).version,
            final(self).retain == old(self).retain,
            final(self).release == old(self).release,
            final(self).copy_description == old(self).copy_description,
    {
        self.info = info;
    }

    /// Puts `callback` in front of the auxiliary list, which then always
    /// exists; the rest of the context is kept.
    pub fn merge_callback(&mut self, callback: usize)
        ensures
            final(self).info is Some,
            info_entries(final(self).info) == seq![callback] + info_entries(old(self).info),
            final(self).version == old(self).version,
            final(self).retain == old(self).retain,
            final(self).release == old(self).release,
            final(self).copy_description == old(self).copy_description,
    {
        let mut merged: Vec<usize> = Vec::new();
        merged.push(callback);
        let old_info = self.info.take();
        match old_info {
            Some(mut rest) => {
                merged.append(&mut rest);
            },
            None => {},
        }
        self.update_info_container(Some(merged));
    }
}

} // verus!
