//! Per-peer update counters captured at one instant, and the rule that
//! decides whether two such captures count as equal.

use crate::error::ProbeFault;
use std::collections::HashMap;
use vstd::prelude::*;
use vstd::std_specs::iter::IteratorSpec;

verus! {

broadcast use vstd::std_specs::hash::group_hash_axioms;

/// Cumulative BGP UPDATE counts exchanged with one peer.
#[derive(Clone, Copy, Debug, PartialEq, Eq, Structural)]
pub struct PeerCounter {
    /// UPDATE messages sent to the peer.
    pub tx: u64,
    /// UPDATE messages received from the peer.
    pub rx: u64,
}

/// The counters of every peer of a router, keyed by the peer's IPv4 address
/// as a big-endian `u32`.
#[derive(Debug)]
pub struct Counter {
    inner: HashMap<u32, PeerCounter>,
}

/// Whether one peer's counts may take part in a comparison: a session that
/// has not sent and received updates yet is not comparable.
pub open spec fn comparable(c: PeerCounter) -> bool {
    c.tx != 0 && c.rx != 0
}

/// Counter equality of two captures: the same set of peers, the same counts
/// for each, and no count zero.
pub open spec fn counters_equal(a: Map<u32, PeerCounter>, b: Map<u32, PeerCounter>) -> bool {
    &&& a.dom() == b.dom()
    &&& forall|k: u32| #[trigger] a.contains_key(k) ==> a[k] == b[k] && comparable(a[k])
}

impl View for Counter {
    type V = Map<u32, PeerCounter>;

    closed spec fn view(&self) -> Map<u32, PeerCounter> {
        self.inner@
    }
}

impl Counter {
    /// A capture without peers.
    pub fn new() -> (r: Counter)
        ensures
            r@ == Map::<u32, PeerCounter>::empty(),
    {
        Counter { inner: HashMap::new() }
    }

    /// Records the counts of `addr`; a later record for the same address
    /// replaces the earlier one.
    pub fn insert(&mut self, addr: u32, counts: PeerCounter)
        ensures
            final(self)@ == old(self)@.insert(addr, counts),
    {
        self.inner.insert(addr, counts);
    }

    /// The counts recorded for `addr`.
    pub fn get(&self, addr: u32) -> (r: Option<PeerCounter>)
        ensures
            r == (if self@.contains_key(addr) {
                Some(self@[addr])
            } else {
                None
            }),
    {
        match self.inner.get(&addr) {
            Some(c) => Some(*c),
            None => None,
        }
    }

    /// The number of peers.
    pub fn len(&self) -> (r: usize)
        ensures
            r == self@.len(),
            self@.dom().finite(),
    {
        self.inner.len()
    }

    /// Counter equality: what `==` computes.
    pub fn counter_equal(&self, other: &Counter) -> (r: bool)
        ensures
            r == counters_equal(self@, other@),
    {
        if self.inner.len() != other.inner.len() {
            proof {
                if self@.dom() == other@.dom() {
                    assert(self@.len() == other@.len());
                }
            }
            return false;
        }
        let ghost keys = vstd::std_specs::hash::spec_keys_iter(&other.inner).remaining().unref();
        let ghost mut done: int = 0;
        for k in iter: other.inner.keys()
            invariant
                iter.seq().unref() == keys,
                keys.to_set() == other@.dom(),
                done == iter.index(),
                forall|i: int|
                    0 <= i < done ==> {
                        let key = #[trigger] keys[i];
                        &&& self@.contains_key(key)
                        &&& self@[key] == other@[key]
                        &&& comparable(self@[key])
                    },
        {
            match self.inner.get(k) {
                Some(s) => {
                    if s.tx == 0 || s.rx == 0 {
                        return false;
                    }
                    let o = other.inner.get(k);
                    match o {
                        Some(o) => {
                            if s.tx != o.tx || s.rx != o.rx {
                                return false;
                            }
                        },
                        None => {
                            return false;
                        },
                    }
                },
                None => {
                    return false;
                },
            }
            proof {
                done = done + 1;
            }
        }
        proof {
            assert(other@.dom().subset_of(self@.dom())) by {
                assert forall|k: u32| other@.dom().contains(k) implies self@.dom().contains(k) by {
                    assert(keys.to_set().contains(k));
                    let i = choose|i: int| 0 <= i < keys.len() && keys[i] == k;
                    assert(keys[i] == k);
                }
            }
            vstd::set_lib::lemma_subset_equality(other@.dom(), self@.dom());
        }
        true
    }
}

/// The view of a capture that may have failed.
pub open spec fn counter_view(r: Result<Counter, ProbeFault>) -> Result<
    Map<u32, PeerCounter>,
    ProbeFault,
> {
    match r {
        Ok(peers) => Ok(peers@),
        Err(e) => Err(e),
    }
}

impl PartialEq for Counter {
    /// `==` is counter equality. It is not reflexive: a capture with a zero
    /// count equals nothing, itself included.
    fn eq(&self, other: &Counter) -> (r: bool) {
        self.counter_equal(other)
    }
}

impl vstd::std_specs::cmp::PartialEqSpecImpl for Counter {
    open spec fn obeys_eq_spec() -> bool {
        true
    }

    open spec fn eq_spec(&self, other: &Counter) -> bool {
        counters_equal(self@, other@)
    }
}

/// A capture without a zero count is counter-equal to itself. The rule is
/// stated over the peer map itself, so the order in which a capture is walked
/// plays no part.
pub proof fn lemma_equal_reflexive(s: Map<u32, PeerCounter>)
    requires
        forall|k: u32| s.contains_key(k) ==> comparable(#[trigger] s[k]),
    ensures
        counters_equal(s, s),
{
}

/// Counter equality is symmetric.
pub proof fn lemma_equal_symmetric(a: Map<u32, PeerCounter>, b: Map<u32, PeerCounter>)
    ensures
        counters_equal(a, b) == counters_equal(b, a),
{
    if counters_equal(a, b) {
        assert forall|k: u32| #[trigger] b.contains_key(k) implies b[k] == a[k] && comparable(
            b[k],
        ) by {
            assert(a.dom().contains(k));
            assert(a.contains_key(k));
        }
    }
    if counters_equal(b, a) {
        assert forall|k: u32| #[trigger] a.contains_key(k) implies a[k] == b[k] && comparable(
            a[k],
        ) by {
            assert(b.dom().contains(k));
            assert(b.contains_key(k));
        }
    }
}

/// Counter equality is transitive.
pub proof fn lemma_equal_transitive(
    a: Map<u32, PeerCounter>,
    b: Map<u32, PeerCounter>,
    c: Map<u32, PeerCounter>,
)
    requires
        counters_equal(a, b),
        counters_equal(b, c),
    ensures
        counters_equal(a, c),
{
    assert forall|k: u32| #[trigger] a.contains_key(k) implies a[k] == c[k] && comparable(a[k]) by {
        assert(b.dom().contains(k));
        assert(b.contains_key(k));
    }
}

/// A peer that one capture holds and the other lacks makes the two unequal,
/// whatever the counts are.
pub proof fn lemma_peer_sets_differ(a: Map<u32, PeerCounter>, b: Map<u32, PeerCounter>, peer: u32)
    requires
        a.contains_key(peer) != b.contains_key(peer),
    ensures
        !counters_equal(a, b),
        !counters_equal(b, a),
{
    if a.dom() == b.dom() {
        assert(a.dom().contains(peer) == b.dom().contains(peer));
    }
}

/// A peer with a zero count in either capture makes the two unequal, even
/// where they are the same capture.
pub proof fn lemma_zero_count_never_equal(
    a: Map<u32, PeerCounter>,
    b: Map<u32, PeerCounter>,
    peer: u32,
)
    requires
        (a.contains_key(peer) && !comparable(a[peer])) || (b.contains_key(peer) && !comparable(
            b[peer],
        )),
    ensures
        !counters_equal(a, b),
{
    if counters_equal(a, b) {
        assert(a.dom().contains(peer) == b.dom().contains(peer));
        assert(a.contains_key(peer));
    }
}

} // verus!
