use vstd::prelude::*;

use crate::frame::Frame;
use crate::snapshot::CameraIdentity;
use crate::snapshot::CameraSnapshot;
use crate::snapshot::SnapshotSet;

verus! {

/// One acquisition cycle over the tracked devices, in stable device order.
///
/// The loop that owns the device handles drives this machine: for each device
/// in turn it reports whether the device is connected, and — only when this
/// machine directed it to capture — reports the capture outcome. The machine
/// records one result slot per device; a disconnected or failing device gets
/// an absent frame, and a single device failure never aborts the cycle. When
/// every device has been handled, [`AcquisitionCycle::finish`] assembles the
/// snapshot set for publication: exactly one entry per tracked device, in the
/// order the devices were handed in.
pub struct AcquisitionCycle {
    /// Identities of the tracked devices, in stable device order.
    pub identities: Vec<CameraIdentity>,
    /// Per-device outcomes recorded so far: `results[i]` belongs to
    /// `identities[i]`.
    pub results: Vec<Option<Frame>>,
    /// True while a capture directive for device `results.len()` is
    /// outstanding: the machine has told the caller to capture from it and
    /// waits for the outcome.
    pub awaiting_capture: bool,
}

impl AcquisitionCycle {
    /// Structural invariant: results never outnumber devices, and a capture
    /// directive is only ever outstanding for a device without a result yet.
    pub open spec fn wf(self) -> bool {
        &&& self.results@.len() <= self.identities@.len()
        &&& (self.awaiting_capture ==> self.results@.len() < self.identities@.len())
    }

    /// Every tracked device has a recorded outcome.
    pub open spec fn is_complete(self) -> bool {
        self.results@.len() == self.identities@.len()
    }

    /// Starts a cycle over the given devices. Zero devices is valid: the
    /// cycle is then complete at once and yields an empty snapshot set.
    pub fn begin(identities: Vec<CameraIdentity>) -> (r: AcquisitionCycle)
        ensures
            r.wf(),
            !r.awaiting_capture,
            r.identities@ == identities@,
            r.results@ =~= Seq::<Option<Frame>>::empty(),
    {
        AcquisitionCycle { identities, results: Vec::new(), awaiting_capture: false }
    }

    /// Whether every device has been handled this cycle.
    pub fn done(&self) -> (r: bool)
        ensures
            r == self.is_complete(),
    {
        self.results.len() == self.identities.len()
    }

    /// The device the caller must handle next.
    pub fn next_device(&self) -> (r: &CameraIdentity)
        requires
            self.wf(),
            !self.is_complete(),
        ensures
            *r == self.identities@[self.results@.len() as int],
    {
        &self.identities[self.results.len()]
    }

    /// Reports whether the next device is connected, and directs the caller
    /// whether to capture from it: capture exactly when it is connected. A
    /// device that reports itself disconnected gets an absent frame recorded
    /// on the spot — it is never captured from this cycle, and it keeps its
    /// entry rather than being dropped from the set.
    pub fn report_connection(&mut self, connected: bool) -> (capture: bool)
        requires
            old(self).wf(),
            !old(self).awaiting_capture,
            !old(self).is_complete(),
        ensures
            final(self).wf(),
            capture == connected,
            final(self).identities@ == old(self).identities@,
            connected ==> final(self).awaiting_capture && final(self).results@ == old(
                self,
            ).results@,
            !connected ==> !final(self).awaiting_capture && final(self).results@ == old(
                self,
            ).results@.push(None::<Frame>),
    {
        if connected {
            self.awaiting_capture = true;
            true
        } else {
            self.results.push(None);
            false
        }
    }

    /// Reports the outcome of the capture directive for the current device:
    /// `Some` with the decoded frame on success, `None` when the capture
    /// failed or timed out. Either way the cycle moves on to the next device.
    pub fn report_capture(&mut self, frame: Option<Frame>)
        requires
            old(self).wf(),
            old(self).awaiting_capture,
        ensures
            final(self).wf(),
            !final(self).awaiting_capture,
            final(self).identities@ == old(self).identities@,
            final(self).results@ == old(self).results@.push(frame),
    {
        self.results.push(frame);
        self.awaiting_capture = false;
    }

    /// Assembles the snapshot set of a completed cycle: exactly one entry per
    /// tracked device, in stable device order, each carrying the recorded
    /// outcome — however many devices failed this cycle.
    pub fn finish(self) -> (r: SnapshotSet)
        requires
            self.wf(),
            self.is_complete(),
        ensures
            r@.len() == self.identities@.len(),
            forall|i: int|
                #![trigger r@[i]]
                0 <= i < r@.len() ==> r@[i].identity == self.identities@[i] && r@[i].frame
                    == self.results@[i],
    {
        let AcquisitionCycle { identities: mut ids, results: mut rs, awaiting_capture: _ } = self;
        let ghost ids0 = ids@;
        let ghost rs0 = rs@;
        let mut entries: Vec<CameraSnapshot> = Vec::new();
        while ids.len() > 0
            invariant
                rs@.len() == ids@.len(),
                rs0.len() == ids0.len(),
                entries@.len() + ids@.len() == ids0.len(),
                ids@ =~= ids0.skip(entries@.len() as int),
                rs@ =~= rs0.skip(entries@.len() as int),
                forall|i: int|
                    0 <= i < entries@.len() ==> entries@[i].identity == ids0[i]
                        && entries@[i].frame == rs0[i],
            decreases ids@.len(),
        {
            let id = ids.remove(0);
            let fr = rs.remove(0);
            entries.push(CameraSnapshot { identity: id, frame: fr });
        }
        SnapshotSet { entries }
    }
}

} // verus!
