//! The GoBGP backend: reads the answers of the router's peer-listing call,
//! one per peer, each with the peer's address and, once the session has
//! reported message statistics, the updates sent and received.

use crate::counter::{counter_view, Counter, PeerCounter};
use crate::error::ProbeFault;
use crate::fold::{lemma_try_fold_error, lemma_try_fold_next, try_fold};
use crate::text::{chars_of, dotted_ipv4, parse_ipv4};
use vstd::prelude::*;

verus! {

/// The message statistics of a peer: the number of updates in each direction,
/// where the router reports one.
#[derive(Debug)]
pub struct PeerMessages {
    pub sent: Option<u64>,
    pub received: Option<u64>,
}

/// The state of a peer as the router reports it.
#[derive(Debug)]
pub struct PeerState {
    /// The peer's address in dotted decimal.
    pub neighbor_address: String,
    /// The message statistics, absent until the session has some.
    pub messages: Option<PeerMessages>,
}

/// One answer of the peer-listing call.
#[derive(Debug)]
pub struct PeerRecord {
    /// The state of the peer that the answer is about; every answer must
    /// carry one.
    pub state: Option<PeerState>,
}

/// The counts that `messages` gives, if it reports both directions.
pub open spec fn reported_counts(messages: Option<PeerMessages>) -> Option<PeerCounter> {
    match messages {
        Some(m) => match (m.sent, m.received) {
            (Some(tx), Some(rx)) => Some(PeerCounter { tx, rx }),
            _ => None,
        },
        None => None,
    }
}

/// The peers after one answer has been read. A peer without counts in both
/// directions is not ready and is left out; an answer without a state, or
/// with an address that is none, is a fault.
pub open spec fn after_record(peers: Map<u32, PeerCounter>, record: PeerRecord) -> Result<
    Map<u32, PeerCounter>,
    ProbeFault,
> {
    match record.state {
        None => Err(ProbeFault::MissingField),
        Some(state) => match dotted_ipv4(state.neighbor_address@) {
            None => Err(ProbeFault::Address),
            Some(peer) => match reported_counts(state.messages) {
                Some(counts) => Ok(peers.insert(peer, counts)),
                None => Ok(peers),
            },
        },
    }
}

/// One step of the walk over the answers.
pub open spec fn record_step() -> spec_fn(Map<u32, PeerCounter>, PeerRecord) -> Result<
    Map<u32, PeerCounter>,
    ProbeFault,
> {
    |peers: Map<u32, PeerCounter>, record: PeerRecord| after_record(peers, record)
}

/// The capture that the answers `records` give, read in order.
pub open spec fn counter_of(records: Seq<PeerRecord>) -> Result<Map<u32, PeerCounter>, ProbeFault> {
    try_fold(records, Map::empty(), record_step())
}

/// Reads one answer into `peers`, which is left as it was if the peer is not
/// ready or the answer is faulty.
pub fn read_record(peers: &mut Counter, record: &PeerRecord) -> (r: Result<(), ProbeFault>)
    ensures
        match after_record(old(peers)@, *record) {
            Ok(next) => r is Ok && final(peers)@ == next,
            Err(e) => r == Err::<(), ProbeFault>(e) && final(peers)@ == old(peers)@,
        },
{
    let state = match &record.state {
        Some(state) => state,
        None => {
            return Err(ProbeFault::MissingField);
        },
    };
    let address = chars_of(state.neighbor_address.as_str());
    let peer = match parse_ipv4(address.as_slice()) {
        Some(peer) => peer,
        None => {
            return Err(ProbeFault::Address);
        },
    };
    if let Some(messages) = &state.messages {
        if let Some(tx) = messages.sent {
            if let Some(rx) = messages.received {
                peers.insert(peer, PeerCounter { tx, rx });
            }
        }
    }
    Ok(())
}

/// The GoBGP backend.
pub struct GoBgp {}

impl GoBgp {
    /// The backend; the connection to the router is kept by whoever makes
    /// the calls.
    pub fn new() -> (r: GoBgp)
        ensures
            r == (GoBgp {  }),
    {
        GoBgp {  }
    }

    /// Reads the capture out of `records`, the answers of one peer-listing
    /// call.
    pub fn get_counter(&self, records: &Vec<PeerRecord>) -> (r: Result<Counter, ProbeFault>)
        ensures
            counter_view(r) == counter_of(records@),
    {
        let mut peers = Counter::new();
        let mut i: usize = 0;
        assert(records@.take(0) =~= Seq::<PeerRecord>::empty());
        while i < records.len()
            invariant
                i <= records.len(),
                try_fold(records@.take(i as int), Map::empty(), record_step()) == Ok::<
                    Map<u32, PeerCounter>,
                    ProbeFault,
                >(peers@),
            decreases records.len() - i,
        {
            proof {
                lemma_try_fold_next(records@, Map::empty(), record_step(), i as int);
            }
            match read_record(&mut peers, &records[i]) {
                Ok(()) => {},
                Err(e) => {
                    proof {
                        lemma_try_fold_error(records@, Map::empty(), record_step(), i + 1);
                    }
                    return Err(e);
                },
            }
            i += 1;
        }
        assert(records@.take(records.len() as int) =~= records@);
        Ok(peers)
    }
}

} // verus!
