//! The decisions of the polling loop. Whoever drives the loop samples the
//! router, hands each capture to [`PollLoop::tick`] with the time, prints the
//! report it gets back and sleeps for the interval.

use crate::counter::Counter;
use crate::error::{ProbeFault, WatchError};
use crate::window::{pushed, stable, CounterSnapshot, SnapshotView, StabilizationWindow};
use vstd::prelude::*;

verus! {

/// Seconds between two samples.
pub const POLL_INTERVAL_SECS: u64 = 1;

/// Where the loop stands.
#[derive(Clone, Copy, Debug, PartialEq, Eq, Structural)]
pub enum Phase {
    /// The window is not full yet.
    Priming,
    /// The window is full and gives a verdict at every tick.
    Steady,
}

/// What the loop reports after a tick.
#[derive(Clone, Copy, Debug, PartialEq, Eq, Structural)]
pub struct Report {
    /// Milliseconds between the start of the loop and the capture.
    pub elapsed: u64,
    /// The number of peers in the capture.
    pub peer_count: usize,
    /// Whether the window is stable with this capture in it.
    pub stabilized: bool,
}

/// The phase of a loop whose window of `capacity` places holds `held` captures.
pub open spec fn phase_of(capacity: nat, held: nat) -> Phase {
    if held < capacity {
        Phase::Priming
    } else {
        Phase::Steady
    }
}

/// The time from `started_at` to `now`, zero if `now` lies before the start.
pub open spec fn elapsed_between(started_at: u64, now: u64) -> u64 {
    if now >= started_at {
        (now - started_at) as u64
    } else {
        0
    }
}

/// The state of one polling run: its window and the time it started.
#[derive(Debug)]
pub struct PollLoop {
    window: StabilizationWindow,
    started_at: u64,
}

impl PollLoop {
    /// The capacity of the loop's window.
    pub closed spec fn capacity(&self) -> nat {
        self.window.capacity() as nat
    }

    /// The captures in the loop's window, newest first.
    pub closed spec fn history(&self) -> Seq<SnapshotView> {
        self.window.history()
    }

    /// The time at which the loop started.
    pub closed spec fn started_at(&self) -> u64 {
        self.started_at
    }

    /// The loop's phase.
    pub open spec fn spec_phase(&self) -> Phase {
        phase_of(self.capacity(), self.history().len())
    }

    /// A loop that starts at `started_at`, priming an empty window of
    /// `capacity` places.
    pub fn new(capacity: usize, started_at: u64) -> (r: PollLoop)
        ensures
            r.capacity() == capacity,
            r.started_at() == started_at,
            r.history() == Seq::<SnapshotView>::empty(),
    {
        PollLoop { window: StabilizationWindow::new(capacity), started_at }
    }

    /// The loop's phase.
    #[verifier::when_used_as_spec(spec_phase)]
    pub fn phase(&self) -> (r: Phase)
        ensures
            r == self.spec_phase(),
    {
        if self.window.len() < self.window.capacity() {
            Phase::Priming
        } else {
            Phase::Steady
        }
    }

    /// One tick: pushes the capture `peers`, taken at `now`, into the window
    /// and reports the elapsed time, the number of peers and the verdict.
    pub fn tick(&mut self, peers: Counter, now: u64) -> (r: Report)
        ensures
            final(self).capacity() == old(self).capacity(),
            final(self).started_at() == old(self).started_at(),
            final(self).history() == pushed(
                old(self).capacity(),
                old(self).history(),
                (SnapshotView { peers: peers@, captured_at: now }),
            ),
            r.elapsed == elapsed_between(old(self).started_at(), now),
            r.peer_count == peers@.len(),
            r.stabilized == stable(final(self).capacity(), final(self).history()),
            old(self).phase() == Phase::Steady ==> final(self).phase() == Phase::Steady,
            r.stabilized ==> final(self).phase() == Phase::Steady,
    {
        let peer_count = peers.len();
        let elapsed = if now >= self.started_at {
            now - self.started_at
        } else {
            0
        };
        self.window.push(CounterSnapshot { peers, captured_at: now });
        let stabilized = self.window.is_stable();
        Report { elapsed, peer_count, stabilized }
    }

    /// One tick on what a probe gave. A capture is pushed and reported on as
    /// by [`PollLoop::tick`]; a fault ends the run and leaves the loop as it
    /// was, for a tick passed over could hide the moment of convergence.
    pub fn observe(&mut self, sampled: Result<Counter, ProbeFault>, now: u64) -> (r: Result<
        Report,
        WatchError,
    >)
        ensures
            final(self).capacity() == old(self).capacity(),
            final(self).started_at() == old(self).started_at(),
            match sampled {
                Ok(peers) => {
                    &&& final(self).history() == pushed(
                        old(self).capacity(),
                        old(self).history(),
                        (SnapshotView { peers: peers@, captured_at: now }),
                    )
                    &&& r == Ok::<Report, WatchError>(
                        (Report {
                            elapsed: elapsed_between(old(self).started_at(), now),
                            peer_count: peers@.len() as usize,
                            stabilized: stable(final(self).capacity(), final(self).history()),
                        }),
                    )
                },
                Err(fault) => {
                    &&& final(self).history() == old(self).history()
                    &&& r == Err::<Report, WatchError>(WatchError::ProbeFailed(fault))
                },
            },
    {
        match sampled {
            Ok(peers) => Ok(self.tick(peers, now)),
            Err(fault) => Err(WatchError::ProbeFailed(fault)),
        }
    }
}

/// A tick moves a priming loop to the steady phase exactly when the push
/// fills the window, and a steady loop stays steady.
pub proof fn lemma_phase_after_push(
    capacity: nat,
    history: Seq<SnapshotView>,
    snapshot: SnapshotView,
)
    requires
        history.len() <= capacity,
    ensures
        phase_of(capacity, pushed(capacity, history, snapshot).len()) == Phase::Steady
            <==> history.len() + 1 >= capacity,
        phase_of(capacity, history.len()) == Phase::Steady ==> phase_of(
            capacity,
            pushed(capacity, history, snapshot).len(),
        ) == Phase::Steady,
{
}

} // verus!
