use vstd::prelude::*;

use crate::frame::Frame;

verus! {

/// Stable per-process identifier for a physical capture device: the backend
/// index under which it was enumerated, plus a display name captured at open
/// time. Immutable after creation.
#[derive(Clone, Debug)]
pub struct CameraIdentity {
    pub index: u32,
    pub name: String,
}

/// The outcome of one acquisition cycle for one device: its identity paired
/// with the frame it produced, or `None` when the device was disconnected or
/// failed to produce a frame this cycle.
#[derive(Clone, Debug)]
pub struct CameraSnapshot {
    pub identity: CameraIdentity,
    pub frame: Option<Frame>,
}

/// The latest frame (or absence thereof) for every tracked camera, one entry
/// per device in stable device order, published atomically as one unit.
#[derive(Clone, Debug)]
pub struct SnapshotSet {
    pub entries: Vec<CameraSnapshot>,
}

/// The frame that a search of `entries` yields for camera `index`: the frame
/// slot of the first entry whose identity matches, or `None` when no entry
/// matches. A matching entry whose frame is absent yields `None` as well —
/// never a substitute frame.
pub open spec fn lookup(entries: Seq<CameraSnapshot>, index: u32) -> Option<Frame>
    decreases entries.len(),
{
    if entries.len() == 0 {
        None
    } else if entries[0].identity.index == index {
        entries[0].frame
    } else {
        lookup(entries.skip(1), index)
    }
}

impl View for SnapshotSet {
    type V = Seq<CameraSnapshot>;

    open spec fn view(&self) -> Seq<CameraSnapshot> {
        self.entries@
    }
}

impl SnapshotSet {
    /// The initial placeholder set: no tracked cameras yet.
    pub fn empty() -> (r: SnapshotSet)
        ensures
            r@ =~= Seq::<CameraSnapshot>::empty(),
    {
        SnapshotSet { entries: Vec::new() }
    }

    /// Number of tracked cameras in this set.
    pub fn len(&self) -> (r: usize)
        ensures
            r == self@.len(),
    {
        self.entries.len()
    }

    /// The entry at position `i` in stable device order.
    pub fn entry(&self, i: usize) -> (r: &CameraSnapshot)
        requires
            i < self@.len(),
        ensures
            *r == self@[i as int],
    {
        &self.entries[i]
    }

    /// Read path of the snapshot service: the frame of the first entry whose
    /// identity matches `index`, if that entry holds one. A device that is
    /// present but produced no frame this cycle yields `None`, not a blank
    /// frame.
    pub fn frame_for(&self, index: u32) -> (r: Option<&Frame>)
        ensures
            match r {
                Some(f) => lookup(self@, index) == Some(*f),
                None => lookup(self@, index) is None,
            },
    {
        let n: usize = self.entries.len();
        let mut i: usize = 0;
        proof {
            assert(self@.skip(0) =~= self@);
        }
        while i < n
            invariant
                i <= n,
                n == self@.len(),
                lookup(self@, index) == lookup(self@.skip(i as int), index),
            decreases n - i,
        {
            proof {
                assert(self@.skip(i as int)[0] == self@[i as int]);
                assert(self@.skip(i as int).skip(1) =~= self@.skip(i as int + 1));
            }
            if self.entries[i].identity.index == index {
                return match &self.entries[i].frame {
                    Some(f) => Some(f),
                    None => None,
                };
            }
            i = i + 1;
        }
        proof {
            assert(self@.skip(n as int) =~= Seq::<CameraSnapshot>::empty());
        }
        None
    }
}

} // verus!
