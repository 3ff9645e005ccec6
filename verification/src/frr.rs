//! The FRR backend: reads the text of `show bgp neighbors`, in which each
//! peer has a line with its address and, further down, a line with its
//! update counts.

use crate::counter::{counter_view, Counter, PeerCounter};
use crate::error::ProbeFault;
use crate::fold::{lemma_try_fold_error, lemma_try_fold_next, try_fold};
use crate::pattern::{
    captures_view, group_of, group_text, regex_accepts, regex_captures, GroupTexts, Groups,
    LinePattern,
};
use crate::text::{
    chars_of, chars_views, decimal_u64, dotted_ipv4, lines, parse_decimal, parse_ipv4, text_lines,
};
use vstd::prelude::*;

verus! {

/// The line that opens a peer: group 1 is the peer's address.
pub const NEIGHBOR_PATTERN: &'static str = r"^BGP neighbor\D+([\d\.]+)";

/// The line that carries a peer's update counts: group 1 is the number sent,
/// group 2 the number received.
pub const UPDATES_PATTERN: &'static str = r"Updates:\D+(\d+)\D+(\d+)";

/// How far a scan has come: the peers recorded so far, and the address of a
/// peer whose counts have not been seen yet.
pub struct Scan {
    pub pending: Option<u32>,
    pub peers: Counter,
}

/// What a [`Scan`] stands for in contracts.
pub struct ScanView {
    pub pending: Option<u32>,
    pub peers: Map<u32, PeerCounter>,
}

impl View for Scan {
    type V = ScanView;

    open spec fn view(&self) -> ScanView {
        ScanView { pending: self.pending, peers: self.peers@ }
    }
}

/// The view of a scan that may have failed.
pub open spec fn scan_view(r: Result<Scan, ProbeFault>) -> Result<ScanView, ProbeFault> {
    match r {
        Ok(scan) => Ok(scan@),
        Err(e) => Err(e),
    }
}

/// A scan that has seen nothing.
pub open spec fn start() -> ScanView {
    ScanView { pending: None, peers: Map::empty() }
}

/// The scan after a line on which the neighbor pattern gave `neighbor`: a
/// match names the peer that the next counts belong to, in place of one
/// whose counts never came.
pub open spec fn after_neighbor(scan: ScanView, neighbor: Option<GroupTexts>) -> Result<
    ScanView,
    ProbeFault,
> {
    match neighbor {
        None => Ok(scan),
        Some(groups) => match group_text(groups, 1) {
            None => Err(ProbeFault::Address),
            Some(text) => match dotted_ipv4(text) {
                None => Err(ProbeFault::Address),
                Some(addr) => Ok(ScanView { pending: Some(addr), peers: scan.peers }),
            },
        },
    }
}

/// The scan after a line on which the updates pattern gave `updates`: a
/// match records the counts for the pending peer.
pub open spec fn after_updates(scan: ScanView, updates: Option<GroupTexts>) -> Result<
    ScanView,
    ProbeFault,
> {
    match updates {
        None => Ok(scan),
        Some(groups) => match scan.pending {
            None => Err(ProbeFault::Orphan),
            Some(addr) => match group_text(groups, 1) {
                None => Err(ProbeFault::Count),
                Some(sent) => match decimal_u64(sent) {
                    None => Err(ProbeFault::Count),
                    Some(tx) => match group_text(groups, 2) {
                        None => Err(ProbeFault::Count),
                        Some(received) => match decimal_u64(received) {
                            None => Err(ProbeFault::Count),
                            Some(rx) => Ok(
                                ScanView {
                                    pending: None,
                                    peers: scan.peers.insert(addr, PeerCounter { tx, rx }),
                                },
                            ),
                        },
                    },
                },
            },
        },
    }
}

/// The scan after one line, from what the two patterns gave on it. A line
/// may both open a peer and carry its counts.
pub open spec fn after_line(
    scan: ScanView,
    neighbor: Option<GroupTexts>,
    updates: Option<GroupTexts>,
) -> Result<ScanView, ProbeFault> {
    match after_neighbor(scan, neighbor) {
        Ok(opened) => after_updates(opened, updates),
        Err(e) => Err(e),
    }
}

/// One step of the scan over lines.
pub open spec fn line_step() -> spec_fn(ScanView, Seq<char>) -> Result<ScanView, ProbeFault> {
    |scan: ScanView, line: Seq<char>|
        after_line(
            scan,
            regex_captures(NEIGHBOR_PATTERN@, line),
            regex_captures(UPDATES_PATTERN@, line),
        )
}

/// The capture that the text `output` gives: its lines scanned in order, a
/// peer whose counts never came left out.
pub open spec fn counter_of(output: Seq<char>) -> Result<Map<u32, PeerCounter>, ProbeFault> {
    match try_fold(text_lines(output), start(), line_step()) {
        Ok(scan) => Ok(scan.peers),
        Err(e) => Err(e),
    }
}

/// Advances a scan by one line, given what the two patterns found on it.
pub fn scan_line(
    scan: Scan,
    neighbor: &Option<Groups>,
    updates: &Option<Groups>,
) -> (r: Result<Scan, ProbeFault>)
    ensures
        scan_view(r) == after_line(scan@, captures_view(*neighbor), captures_view(*updates)),
{
    let mut scan = scan;
    if let Some(groups) = neighbor {
        let addr = match group_of(groups, 1) {
            Some(text) => match parse_ipv4(text.as_slice()) {
                Some(addr) => addr,
                None => {
                    return Err(ProbeFault::Address);
                },
            },
            None => {
                return Err(ProbeFault::Address);
            },
        };
        scan.pending = Some(addr);
    }
    if let Some(groups) = updates {
        let addr = match scan.pending {
            Some(addr) => addr,
            None => {
                return Err(ProbeFault::Orphan);
            },
        };
        let tx = match group_of(groups, 1) {
            Some(text) => match parse_decimal(text.as_slice()) {
                Some(v) => v,
                None => {
                    return Err(ProbeFault::Count);
                },
            },
            None => {
                return Err(ProbeFault::Count);
            },
        };
        let rx = match group_of(groups, 2) {
            Some(text) => match parse_decimal(text.as_slice()) {
                Some(v) => v,
                None => {
                    return Err(ProbeFault::Count);
                },
            },
            None => {
                return Err(ProbeFault::Count);
            },
        };
        scan.pending = None;
        scan.peers.insert(addr, PeerCounter { tx, rx });
    }
    Ok(scan)
}

/// The FRR backend.
pub struct Frr {
    re1: LinePattern,
    re2: LinePattern,
}

impl Frr {
    #[verifier::type_invariant]
    spec fn patterns_in_place(&self) -> bool {
        &&& self.re1.source() == NEIGHBOR_PATTERN@
        &&& self.re2.source() == UPDATES_PATTERN@
    }

    /// Compiles the two line patterns; fails with [`ProbeFault::Pattern`]
    /// exactly when the engine does not accept one of them.
    pub fn new() -> (r: Result<Frr, ProbeFault>)
        ensures
            r is Ok <==> regex_accepts(NEIGHBOR_PATTERN@) && regex_accepts(UPDATES_PATTERN@),
            r matches Err(e) ==> e == ProbeFault::Pattern,
    {
        let re1 = match LinePattern::compile(NEIGHBOR_PATTERN) {
            Ok(p) => p,
            Err(e) => {
                return Err(e);
            },
        };
        let re2 = match LinePattern::compile(UPDATES_PATTERN) {
            Ok(p) => p,
            Err(e) => {
                return Err(e);
            },
        };
        Ok(Frr { re1, re2 })
    }

    /// Reads the capture out of `output`, the text that
    /// `vtysh -c "show bgp neighbors"` printed.
    pub fn get_counter(&self, output: &str) -> (r: Result<Counter, ProbeFault>)
        ensures
            counter_view(r) == counter_of(output@),
    {
        proof {
            use_type_invariant(self);
        }
        let text = chars_of(output);
        let all = lines(text.as_slice());
        let ghost views = chars_views(all@);
        let mut scan = Scan { pending: None, peers: Counter::new() };
        let mut i: usize = 0;
        assert(views.take(0) =~= Seq::<Seq<char>>::empty());
        while i < all.len()
            invariant
                i <= all.len(),
                views == chars_views(all@),
                views == text_lines(output@),
                self.re1.source() == NEIGHBOR_PATTERN@,
                self.re2.source() == UPDATES_PATTERN@,
                try_fold(views.take(i as int), start(), line_step()) == Ok::<ScanView, ProbeFault>(
                    scan@,
                ),
            decreases all.len() - i,
        {
            let neighbor = self.re1.captures(&all[i]);
            let updates = self.re2.captures(&all[i]);
            proof {
                assert(views[i as int] == all@[i as int]@);
                lemma_try_fold_next(views, start(), line_step(), i as int);
            }
            match scan_line(scan, &neighbor, &updates) {
                Ok(next) => {
                    scan = next;
                },
                Err(e) => {
                    proof {
                        lemma_try_fold_error(views, start(), line_step(), i + 1);
                    }
                    return Err(e);
                },
            }
            i += 1;
        }
        assert(views.take(all.len() as int) =~= views);
        Ok(scan.peers)
    }
}

} // verus!
