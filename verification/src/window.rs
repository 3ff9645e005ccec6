//! The sliding window of recent captures and the verdict it gives: stable once
//! the window is full and every capture in it is counter-equal to the newest.

use crate::counter::{counters_equal, lemma_zero_count_never_equal, Counter, PeerCounter};
use vstd::prelude::*;

verus! {

/// The number of captures a window holds unless told otherwise.
pub const DEFAULT_CAPACITY: usize = 3;

/// The counters of a router's peers together with the instant of capture.
#[derive(Debug)]
pub struct CounterSnapshot {
    /// The per-peer counters.
    pub peers: Counter,
    /// When the capture was taken, in milliseconds on the sampler's clock.
    pub captured_at: u64,
}

/// What a [`CounterSnapshot`] stands for in contracts.
pub struct SnapshotView {
    pub peers: Map<u32, PeerCounter>,
    pub captured_at: u64,
}

impl View for CounterSnapshot {
    type V = SnapshotView;

    open spec fn view(&self) -> SnapshotView {
        SnapshotView { peers: self.peers@, captured_at: self.captured_at }
    }
}

/// The views of a run of captures, in the same order.
pub open spec fn snapshot_views(history: Seq<CounterSnapshot>) -> Seq<SnapshotView> {
    history.map_values(|s: CounterSnapshot| s@)
}

/// Every capture of `history` is counter-equal to its first, the newest. The
/// instants of capture play no part.
pub open spec fn all_equal_to_newest(history: Seq<SnapshotView>) -> bool {
    forall|i: int|
        0 <= i < history.len() ==> counters_equal(history[0].peers, (#[trigger] history[i]).peers)
}

/// The verdict of a window of `capacity` places that holds `history`.
pub open spec fn stable(capacity: nat, history: Seq<SnapshotView>) -> bool {
    history.len() == capacity && all_equal_to_newest(history)
}

/// The history after `snapshot` has been pushed into a window of `capacity`
/// places that held `history`: the new capture in front, the oldest ones
/// beyond the capacity gone.
pub open spec fn pushed(capacity: nat, history: Seq<SnapshotView>, snapshot: SnapshotView) -> Seq<
    SnapshotView,
> {
    let grown = seq![snapshot] + history;
    if grown.len() <= capacity {
        grown
    } else {
        grown.take(capacity as int)
    }
}

/// The history of a window of `capacity` places that started empty and was
/// pushed each capture of `samples`, first to last.
pub open spec fn history_after(capacity: nat, samples: Seq<SnapshotView>) -> Seq<SnapshotView>
    decreases samples.len(),
{
    if samples.len() == 0 {
        Seq::empty()
    } else {
        pushed(capacity, history_after(capacity, samples.drop_last()), samples.last())
    }
}

/// The verdict on `history`, the captures of a window of `capacity` places,
/// newest first: whether there are `capacity` of them and all are
/// counter-equal to the newest.
pub fn is_stabilized(history: &Vec<CounterSnapshot>, capacity: usize) -> (r: bool)
    ensures
        r == stable(capacity as nat, snapshot_views(history@)),
{
    if history.len() != capacity {
        return false;
    }
    let ghost views = snapshot_views(history@);
    let mut i: usize = 0;
    while i < history.len()
        invariant
            i <= history.len(),
            history.len() == capacity,
            views == snapshot_views(history@),
            forall|j: int| 0 <= j < i ==> counters_equal(views[0].peers, (#[trigger] views[j]).peers),
        decreases history.len() - i,
    {
        if !history[0].peers.counter_equal(&history[i].peers) {
            assert(!counters_equal(views[0].peers, views[i as int].peers));
            return false;
        }
        i += 1;
    }
    true
}

/// The last `capacity` captures of a router, newest first.
#[derive(Debug)]
pub struct StabilizationWindow {
    capacity: usize,
    history: Vec<CounterSnapshot>,
}

impl StabilizationWindow {
    #[verifier::type_invariant]
    spec fn within_capacity(&self) -> bool {
        self.history@.len() <= self.capacity
    }

    /// The number of captures the window holds when full.
    pub closed spec fn spec_capacity(&self) -> usize {
        self.capacity
    }

    /// The captures held, newest first.
    pub closed spec fn history(&self) -> Seq<SnapshotView> {
        snapshot_views(self.history@)
    }

    /// An empty window of `capacity` places.
    pub fn new(capacity: usize) -> (r: StabilizationWindow)
        ensures
            r.capacity() == capacity,
            r.history() == Seq::<SnapshotView>::empty(),
    {
        StabilizationWindow { capacity, history: Vec::new() }
    }

    /// The number of captures the window holds when full.
    #[verifier::when_used_as_spec(spec_capacity)]
    pub fn capacity(&self) -> (r: usize)
        ensures
            r == self.capacity(),
    {
        self.capacity
    }

    /// The number of captures held; never more than the capacity.
    pub fn len(&self) -> (r: usize)
        ensures
            r == self.history().len(),
            r <= self.capacity(),
    {
        proof {
            use_type_invariant(self);
        }
        self.history.len()
    }

    /// The capture at `index`, counted from the newest.
    pub fn get(&self, index: usize) -> (r: Option<&CounterSnapshot>)
        ensures
            match r {
                Some(snapshot) => index < self.history().len() && snapshot@
                    == self.history()[index as int],
                None => index >= self.history().len(),
            },
    {
        if index < self.history.len() {
            Some(&self.history[index])
        } else {
            None
        }
    }

    /// Puts `snapshot` in front of the history and drops the oldest capture
    /// if the window was full.
    pub fn push(&mut self, snapshot: CounterSnapshot)
        ensures
            final(self).capacity() == old(self).capacity(),
            final(self).history() == pushed(
                old(self).capacity() as nat,
                old(self).history(),
                snapshot@,
            ),
            final(self).history().len() <= final(self).capacity(),
    {
        proof {
            use_type_invariant(&*self);
        }
        if self.capacity == 0 {
            assert(self.history() =~= pushed(0, self.history(), snapshot@));
            return ;
        }
        let ghost before = self.history@;
        let mut kept: Vec<CounterSnapshot> = Vec::new();
        core::mem::swap(&mut self.history, &mut kept);
        if kept.len() == self.capacity {
            kept.pop();
        }
        kept.insert(0, snapshot);
        self.history = kept;
        assert(self.history() =~= pushed(
            self.capacity as nat,
            snapshot_views(before),
            snapshot@,
        ));
    }

    /// Whether the window is full and all its captures are counter-equal to
    /// the newest.
    pub fn is_stable(&self) -> (r: bool)
        ensures
            r == stable(self.capacity() as nat, self.history()),
    {
        is_stabilized(&self.history, self.capacity)
    }
}

impl Default for StabilizationWindow {
    /// An empty window of [`DEFAULT_CAPACITY`] places.
    fn default() -> (r: StabilizationWindow)
        ensures
            r.capacity() == DEFAULT_CAPACITY,
            r.history() == Seq::<SnapshotView>::empty(),
    {
        StabilizationWindow::new(DEFAULT_CAPACITY)
    }
}

/// A window that holds a capture in which some peer has a zero count is not
/// stable, whatever else it holds.
pub proof fn lemma_zero_count_never_stable(
    capacity: nat,
    history: Seq<SnapshotView>,
    at: int,
    peer: u32,
)
    requires
        0 <= at < history.len(),
        history[at].peers.contains_key(peer),
        history[at].peers[peer].tx == 0 || history[at].peers[peer].rx == 0,
    ensures
        !stable(capacity, history),
{
    if all_equal_to_newest(history) {
        assert(counters_equal(history[0].peers, history[at].peers));
        lemma_zero_count_never_equal(history[0].peers, history[at].peers, peer);
    }
}

/// A window that was pushed `samples` holds the last of them, as many as its
/// capacity allows, newest first.
pub proof fn lemma_history_is_recent_samples(capacity: nat, samples: Seq<SnapshotView>)
    ensures
        history_after(capacity, samples).len() == if samples.len() <= capacity {
            samples.len()
        } else {
            capacity
        },
        forall|j: int|
            0 <= j < history_after(capacity, samples).len() ==> #[trigger] history_after(
                capacity,
                samples,
            )[j] == samples[samples.len() - 1 - j],
    decreases samples.len(),
{
    if samples.len() > 0 {
        lemma_history_is_recent_samples(capacity, samples.drop_last());
    }
}

/// A window is stable exactly when it was pushed at least `capacity` captures
/// and the last `capacity` of them are all counter-equal to the last one:
/// nothing older than that is remembered.
pub proof fn lemma_stable_after(capacity: nat, samples: Seq<SnapshotView>)
    ensures
        stable(capacity, history_after(capacity, samples)) <==> samples.len() >= capacity
            && forall|i: int|
            samples.len() - capacity <= i < samples.len() ==> counters_equal(
                samples.last().peers,
                (#[trigger] samples[i]).peers,
            ),
{
    lemma_history_is_recent_samples(capacity, samples);
    let history = history_after(capacity, samples);
    let n = samples.len() as int;
    if stable(capacity, history) {
        assert forall|i: int| n - capacity <= i < n implies counters_equal(
            samples.last().peers,
            (#[trigger] samples[i]).peers,
        ) by {
            assert(history[0] == samples[n - 1]);
            assert(history[n - 1 - i] == samples[i]);
        }
    }
    if samples.len() >= capacity && forall|i: int|
        n - capacity <= i < n ==> counters_equal(
            samples.last().peers,
            (#[trigger] samples[i]).peers,
        ) {
        assert forall|j: int| 0 <= j < history.len() implies counters_equal(
            history[0].peers,
            (#[trigger] history[j]).peers,
        ) by {
            assert(history[0] == samples[n - 1]);
            assert(history[j] == samples[n - 1 - j]);
        }
    }
}

/// A push into a full window keeps every capture but the oldest, each one
/// place further back, behind the new one.
pub proof fn lemma_push_drops_oldest(
    capacity: nat,
    history: Seq<SnapshotView>,
    snapshot: SnapshotView,
)
    requires
        capacity >= 1,
        history.len() == capacity,
    ensures
        pushed(capacity, history, snapshot).len() == capacity,
        pushed(capacity, history, snapshot)[0] == snapshot,
        forall|i: int|
            1 <= i < capacity ==> #[trigger] pushed(capacity, history, snapshot)[i] == history[i
                - 1],
        pushed(capacity, history, snapshot) == seq![snapshot] + history.drop_last(),
{
    assert(pushed(capacity, history, snapshot) =~= seq![snapshot] + history.drop_last());
}

/// A push into a window that is not full keeps every capture.
pub proof fn lemma_push_keeps_all(capacity: nat, history: Seq<SnapshotView>, snapshot: SnapshotView)
    requires
        history.len() < capacity,
    ensures
        pushed(capacity, history, snapshot) == seq![snapshot] + history,
{
}

} // verus!
