use vstd::prelude::*;

use crate::cycle::AcquisitionCycle;
use crate::snapshot::CameraSnapshot;
use crate::snapshot::SnapshotSet;

verus! {

#[verifier::external_type_specification]
#[verifier::external_body]
#[verifier::reject_recursive_types(T)]
pub struct ExWatchSender<T>(tokio::sync::watch::Sender<T>);

#[verifier::external_type_specification]
#[verifier::external_body]
#[verifier::reject_recursive_types(T)]
pub struct ExWatchReceiver<T>(tokio::sync::watch::Receiver<T>);

/// Relies on tokio::sync::watch::channel: creates a single-slot broadcast
/// channel; receivers observe `init` until a first value is sent.
#[verifier::external_body]
fn watch_channel(init: SnapshotSet) -> (r: (
    tokio::sync::watch::Sender<SnapshotSet>,
    tokio::sync::watch::Receiver<SnapshotSet>,
))
{
    tokio::sync::watch::channel(init)
}

/// Relies on tokio::sync::watch::Sender::send: overwrites the single slot
/// with `value` without waiting for readers; returns whether a receiver was
/// still attached (the value is dropped when none is).
#[verifier::external_body]
fn watch_send(tx: &tokio::sync::watch::Sender<SnapshotSet>, value: SnapshotSet) -> (r: bool) {
    tx.send(value).is_ok()
}

/// Relies on tokio::sync::watch::Receiver::borrow: yields the most recently
/// sent value, never waiting for a new one; it is cloned out of the slot
/// here.
#[verifier::external_body]
fn watch_current(rx: &tokio::sync::watch::Receiver<SnapshotSet>) -> (r: SnapshotSet) {
    rx.borrow().clone()
}

/// Relies on tokio::sync::watch::Receiver::clone: a fresh handle on the same
/// channel, observing the same published values.
#[verifier::external_body]
fn watch_subscribe(rx: &tokio::sync::watch::Receiver<SnapshotSet>) -> (r:
    tokio::sync::watch::Receiver<SnapshotSet>) {
    rx.clone()
}

/// Writer half of the latest-frame store: single-writer, overwrite-on-publish
/// broadcast of the most recent [`SnapshotSet`].
///
/// The store keeps, as ghost state, the full ordered history of published
/// sets (the initial empty placeholder included), so contracts can say where
/// a set stands in publication order. At runtime only the latest set is
/// retained — there is no queue: readers that poll slowly simply skip
/// intermediate sets, and readers never block the writer.
pub struct FrameStore {
    pub tx: tokio::sync::watch::Sender<SnapshotSet>,
    /// Publication history, oldest first; index 0 is the initial empty set.
    pub history: Ghost<Seq<SnapshotSet>>,
}

/// Reader half of the latest-frame store. Any number of readers may hold one;
/// reading never blocks and never observes a partially published set, only
/// whole sets in the order they were published.
pub struct SnapshotReader {
    pub rx: tokio::sync::watch::Receiver<SnapshotSet>,
}

impl FrameStore {
    /// A store always has a history: at least the initial empty set.
    pub open spec fn wf(self) -> bool {
        self.history@.len() >= 1
    }

    /// The most recently published set.
    pub open spec fn latest(self) -> SnapshotSet {
        self.history@.last()
    }

    /// `post` is the same store later in time: everything `pre` had published
    /// is still in `post`'s history, in the same order.
    pub open spec fn extends(post: FrameStore, pre: FrameStore) -> bool {
        pre.history@.is_prefix_of(post.history@)
    }

    /// Creates the store with its first reader, initialized to the empty
    /// placeholder set: a reader that asks for the current set before the
    /// first publish gets that empty set, never an error.
    pub fn new() -> (r: (FrameStore, SnapshotReader))
        ensures
            r.0.wf(),
            r.0.history@.len() == 1,
            r.0.latest()@ =~= Seq::<CameraSnapshot>::empty(),
    {
        let init = SnapshotSet::empty();
        let ghost h = seq![init];
        let (tx, rx) = watch_channel(init);
        (FrameStore { tx, history: Ghost(h) }, SnapshotReader { rx })
    }

    /// Publishes a snapshot set, replacing the current one ("latest wins").
    /// Never blocks on readers. Returns whether any reader is still attached;
    /// either way the set now heads the publication history.
    pub fn publish(&mut self, set: SnapshotSet) -> (delivered: bool)
        requires
            old(self).wf(),
        ensures
            final(self).wf(),
            final(self).history@ == old(self).history@.push(set),
            final(self).latest() == set,
            Self::extends(*final(self), *old(self)),
    {
        proof {
            assert(old(self).history@ =~= old(self).history@.push(set).subrange(
                0,
                old(self).history@.len() as int,
            ));
        }
        self.history = Ghost(self.history@.push(set));
        watch_send(&self.tx, set)
    }

    /// Closes one acquisition cycle: assembles its snapshot set and publishes
    /// it. Whatever mix of successes and failures the cycle recorded, the set
    /// now latest has exactly one entry per tracked device, in stable device
    /// order, each carrying that device's recorded outcome.
    pub fn publish_cycle(&mut self, cycle: AcquisitionCycle) -> (delivered: bool)
        requires
            old(self).wf(),
            cycle.wf(),
            cycle.is_complete(),
        ensures
            final(self).wf(),
            Self::extends(*final(self), *old(self)),
            final(self).history@.len() == old(self).history@.len() + 1,
            final(self).latest()@.len() == cycle.identities@.len(),
            forall|i: int|
                #![trigger final(self).latest()@[i]]
                0 <= i < cycle.identities@.len() ==> final(self).latest()@[i].identity
                    == cycle.identities@[i] && final(self).latest()@[i].frame
                    == cycle.results@[i],
    {
        let set = cycle.finish();
        self.publish(set)
    }
}

/// Monotonicity of publication: in every later state of the store, the set
/// that was latest before still stands at its place in the history, and the
/// new latest set is that one or one published after it — never an earlier
/// one.
pub proof fn lemma_latest_monotone(pre: FrameStore, post: FrameStore)
    requires
        pre.wf(),
        FrameStore::extends(post, pre),
    ensures
        post.wf(),
        post.history@[pre.history@.len() - 1] == pre.latest(),
        exists|i: int|
            pre.history@.len() - 1 <= i < post.history@.len() && post.latest()
                == post.history@[i],
{
    let n = pre.history@.len() as int;
    assert(pre.history@[n - 1] == post.history@.subrange(0, n)[n - 1]);
    let i = post.history@.len() - 1;
    assert(pre.history@.len() - 1 <= i < post.history@.len() && post.latest()
        == post.history@[i]);
}

/// The "later in time" relation on store states composes across publishes.
pub proof fn lemma_extends_trans(a: FrameStore, b: FrameStore, c: FrameStore)
    requires
        FrameStore::extends(b, a),
        FrameStore::extends(c, b),
    ensures
        FrameStore::extends(c, a),
{
    assert(a.history@ =~= c.history@.subrange(0, a.history@.len() as int));
}

impl SnapshotReader {
    /// The most recently published snapshot set, the initial empty set before
    /// the first publish. Never waits for a publish, and always yields a
    /// whole set exactly as the writer published it — never a torn mix of two
    /// cycles; which one comes back depends on how the call interleaves with
    /// concurrent publishes.
    pub fn current(&self) -> (r: SnapshotSet) {
        watch_current(&self.rx)
    }

    /// A fresh reader on the same store, for handing to another consumer.
    pub fn subscribe(&self) -> (r: SnapshotReader) {
        SnapshotReader { rx: watch_subscribe(&self.rx) }
    }
}

} // verus!
