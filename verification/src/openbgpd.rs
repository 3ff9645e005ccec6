//! The OpenBGPD backend: reads the JSON document that `bgpctl -j show
//! neighbor` prints, in which `neighbors` lists each peer with its address
//! and, under `stats.message`, the updates sent and received.

use crate::counter::{counter_view, Counter, PeerCounter};
use crate::error::ProbeFault;
use crate::fold::{lemma_try_fold_error, lemma_try_fold_next, try_fold};
use crate::json::{json_document, parse_json, Json};
use crate::text::{contains_char, dotted_ipv4, parse_ipv4};
use vstd::prelude::*;

verus! {

/// The update count of `neighbor` in one direction, `sent` or `received`: the
/// whole number at `stats.message.<direction>.updates`, which must not be
/// negative.
pub open spec fn update_count(neighbor: Json, direction: Seq<char>) -> Result<u64, ProbeFault> {
    match neighbor.descend(seq!["stats"@, "message"@, direction, "updates"@]) {
        None => Err(ProbeFault::MissingField),
        Some(value) => match value.integer() {
            None => Err(ProbeFault::MissingField),
            Some(n) => if n < 0 {
                Err(ProbeFault::Count)
            } else {
                Ok(n as u64)
            },
        },
    }
}

/// The peers after one entry of `neighbors` has been read. An entry whose
/// address holds a `/` stands for a range of addresses, not for a peer, and
/// is passed over without a look at anything else in it.
pub open spec fn after_neighbor(peers: Map<u32, PeerCounter>, neighbor: Json) -> Result<
    Map<u32, PeerCounter>,
    ProbeFault,
> {
    match neighbor.member("remote_addr"@) {
        None => Err(ProbeFault::MissingField),
        Some(value) => match value.text() {
            None => Err(ProbeFault::MissingField),
            Some(addr) => if addr.contains('/') {
                Ok(peers)
            } else {
                match update_count(neighbor, "sent"@) {
                    Err(e) => Err(e),
                    Ok(tx) => match update_count(neighbor, "received"@) {
                        Err(e) => Err(e),
                        Ok(rx) => match dotted_ipv4(addr) {
                            None => Err(ProbeFault::Address),
                            Some(peer) => Ok(peers.insert(peer, PeerCounter { tx, rx })),
                        },
                    },
                }
            },
        },
    }
}

/// One step of the walk over the entries of `neighbors`.
pub open spec fn neighbor_step() -> spec_fn(Map<u32, PeerCounter>, Json) -> Result<
    Map<u32, PeerCounter>,
    ProbeFault,
> {
    |peers: Map<u32, PeerCounter>, neighbor: Json| after_neighbor(peers, neighbor)
}

/// The capture that the document `doc` gives.
pub open spec fn document_counter(doc: Json) -> Result<Map<u32, PeerCounter>, ProbeFault> {
    match doc.member("neighbors"@) {
        None => Err(ProbeFault::MissingField),
        Some(list) => match list.items() {
            None => Err(ProbeFault::MissingField),
            Some(entries) => try_fold(entries, Map::empty(), neighbor_step()),
        },
    }
}

/// The capture that the text `output` gives.
pub open spec fn counter_of(output: Seq<char>) -> Result<Map<u32, PeerCounter>, ProbeFault> {
    match json_document(output) {
        None => Err(ProbeFault::Document),
        Some(doc) => document_counter(doc),
    }
}

/// Reads the update count of `neighbor` in one direction.
pub fn read_update_count(neighbor: &Json, direction: &str) -> (r: Result<u64, ProbeFault>)
    ensures
        r == update_count(*neighbor, direction@),
{
    let ghost path = seq!["stats"@, "message"@, direction@, "updates"@];
    proof {
        reveal_with_fuel(Json::descend, 5);
        assert(path.drop_last() =~= seq!["stats"@, "message"@, direction@]);
        assert(path.drop_last().drop_last() =~= seq!["stats"@, "message"@]);
        assert(path.drop_last().drop_last().drop_last() =~= seq!["stats"@]);
        assert(path.drop_last().drop_last().drop_last().drop_last() =~= Seq::<Seq<char>>::empty());
    }
    let stats = match neighbor.get("stats") {
        Some(v) => v,
        None => {
            return Err(ProbeFault::MissingField);
        },
    };
    let message = match stats.get("message") {
        Some(v) => v,
        None => {
            return Err(ProbeFault::MissingField);
        },
    };
    let side = match message.get(direction) {
        Some(v) => v,
        None => {
            return Err(ProbeFault::MissingField);
        },
    };
    let updates = match side.get("updates") {
        Some(v) => v,
        None => {
            return Err(ProbeFault::MissingField);
        },
    };
    match updates.as_i64() {
        Some(n) => {
            if n < 0 {
                Err(ProbeFault::Count)
            } else {
                Ok(n as u64)
            }
        },
        None => Err(ProbeFault::MissingField),
    }
}

/// Reads one entry of `neighbors` into `peers`, which is left as it was if
/// the entry is passed over or faulty.
pub fn read_neighbor(peers: &mut Counter, neighbor: &Json) -> (r: Result<(), ProbeFault>)
    ensures
        match after_neighbor(old(peers)@, *neighbor) {
            Ok(next) => r is Ok && final(peers)@ == next,
            Err(e) => r == Err::<(), ProbeFault>(e) && final(peers)@ == old(peers)@,
        },
{
    let addr = match neighbor.get("remote_addr") {
        Some(value) => match value.as_text() {
            Some(addr) => addr,
            None => {
                return Err(ProbeFault::MissingField);
            },
        },
        None => {
            return Err(ProbeFault::MissingField);
        },
    };
    if contains_char(addr.as_slice(), '/') {
        return Ok(());
    }
    let tx = match read_update_count(neighbor, "sent") {
        Ok(v) => v,
        Err(e) => {
            return Err(e);
        },
    };
    let rx = match read_update_count(neighbor, "received") {
        Ok(v) => v,
        Err(e) => {
            return Err(e);
        },
    };
    let peer = match parse_ipv4(addr.as_slice()) {
        Some(peer) => peer,
        None => {
            return Err(ProbeFault::Address);
        },
    };
    peers.insert(peer, PeerCounter { tx, rx });
    Ok(())
}

/// Reads the capture out of the document `doc`.
pub fn read_document(doc: &Json) -> (r: Result<Counter, ProbeFault>)
    ensures
        counter_view(r) == document_counter(*doc),
{
    let entries = match doc.get("neighbors") {
        Some(list) => match list.as_array() {
            Some(entries) => entries,
            None => {
                return Err(ProbeFault::MissingField);
            },
        },
        None => {
            return Err(ProbeFault::MissingField);
        },
    };
    let mut peers = Counter::new();
    let mut i: usize = 0;
    assert(entries@.take(0) =~= Seq::<Json>::empty());
    while i < entries.len()
        invariant
            i <= entries.len(),
            document_counter(*doc) == try_fold(entries@, Map::empty(), neighbor_step()),
            try_fold(entries@.take(i as int), Map::empty(), neighbor_step()) == Ok::<
                Map<u32, PeerCounter>,
                ProbeFault,
            >(peers@),
        decreases entries.len() - i,
    {
        proof {
            lemma_try_fold_next(entries@, Map::empty(), neighbor_step(), i as int);
        }
        match read_neighbor(&mut peers, &entries[i]) {
            Ok(()) => {},
            Err(e) => {
                proof {
                    lemma_try_fold_error(entries@, Map::empty(), neighbor_step(), i + 1);
                }
                return Err(e);
            },
        }
        i += 1;
    }
    assert(entries@.take(entries.len() as int) =~= entries@);
    Ok(peers)
}

/// The OpenBGPD backend.
pub struct OpenBgpd {}

impl OpenBgpd {
    /// The backend; it keeps nothing between probes.
    pub fn new() -> (r: OpenBgpd)
        ensures
            r == (OpenBgpd {  }),
    {
        OpenBgpd {  }
    }

    /// Reads the capture out of `output`, the text that
    /// `bgpctl -j show neighbor` printed.
    pub fn get_counter(&self, output: &str) -> (r: Result<Counter, ProbeFault>)
        ensures
            counter_view(r) == counter_of(output@),
    {
        match parse_json(output) {
            Some(doc) => read_document(&doc),
            None => Err(ProbeFault::Document),
        }
    }
}

/// An entry whose address holds a `/` leaves the peers as they were,
/// whatever else it holds.
pub proof fn lemma_range_is_passed_over(
    peers: Map<u32, PeerCounter>,
    neighbor: Json,
    addr: Seq<char>,
)
    requires
        neighbor.member("remote_addr"@) matches Some(value) && value.text() == Some(addr),
        addr.contains('/'),
    ensures
        after_neighbor(peers, neighbor) == Ok::<Map<u32, PeerCounter>, ProbeFault>(peers),
{
}

} // verus!
