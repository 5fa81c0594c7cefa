use vstd::prelude::*;

use crate::frame::Frame;
use crate::snapshot::lookup;
use crate::snapshot::SnapshotSet;
use crate::store::SnapshotReader;

verus! {

/// Failure signal of the snapshot service.
#[derive(PartialEq, Eq, Structural, Clone, Copy, Debug)]
pub enum ServiceError {
    /// No tracked camera matches the requested identifier, or the matching
    /// camera produced no frame in the last cycle.
    CameraNotFound,
}

/// Read path used by the serving layer: given a camera index, the latest
/// decoded frame for that camera, or a not-found signal. Pure read, no side
/// effects, safe to call from arbitrarily many concurrent callers.
pub struct SnapshotService {
    pub reader: SnapshotReader,
}

impl SnapshotSet {
    /// Consuming variant of [`SnapshotSet::frame_for`], used by the service
    /// to hand a frame out of a set it fetched for itself: the frame of the
    /// first entry whose identity matches `camera_index`, moved out of the
    /// set, or `CameraNotFound` when that entry holds none or no entry
    /// matches.
    pub fn take_frame(self, camera_index: u32) -> (r: Result<Frame, ServiceError>)
        ensures
            match lookup(self@, camera_index) {
                Some(f) => r == Ok::<Frame, ServiceError>(f),
                None => r == Err::<Frame, ServiceError>(ServiceError::CameraNotFound),
            },
    {
        let ghost entries0 = self@;
        let mut entries = self.entries;
        let n: usize = entries.len();
        let mut i: usize = 0;
        proof {
            assert(entries0.skip(0) =~= entries0);
        }
        while i < n
            invariant
                i <= n,
                n == entries@.len(),
                entries@ == entries0,
                entries0 == self@,
                lookup(entries0, camera_index) == lookup(
                    entries0.skip(i as int),
                    camera_index,
                ),
            decreases n - i,
        {
            proof {
                assert(entries0.skip(i as int)[0] == entries0[i as int]);
                assert(entries0.skip(i as int).skip(1) =~= entries0.skip(i as int + 1));
            }
            if entries[i].identity.index == camera_index {
                let entry = entries.swap_remove(i);
                return match entry.frame {
                    Some(f) => Ok(f),
                    None => Err(ServiceError::CameraNotFound),
                };
            }
            i = i + 1;
        }
        proof {
            assert(entries0.skip(n as int) =~= Seq::<crate::snapshot::CameraSnapshot>::empty());
        }
        Err(ServiceError::CameraNotFound)
    }
}

impl SnapshotService {
    /// A service reading from the given store reader.
    pub fn new(reader: SnapshotReader) -> (r: SnapshotService)
        ensures
            r.reader == reader,
    {
        SnapshotService { reader }
    }

    /// The latest frame for `camera_index`: fetches the freshest published
    /// set and applies [`SnapshotSet::take_frame`] to it, whose contract pins
    /// the answer for whichever set the store handed back. A camera that is
    /// absent from the set, or present with no frame this cycle, yields
    /// `CameraNotFound` — never a substitute frame.
    pub fn get(&self, camera_index: u32) -> (r: Result<Frame, ServiceError>) {
        let set = self.reader.current();
        set.take_frame(camera_index)
    }
}

} // verus!
