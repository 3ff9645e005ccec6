//! The BIRD backend: reads the text of `show protocols all`, in which each
//! peer has a line with its address, followed by one line with its import
//! and one with its export update counts.

use crate::counter::{counter_view, Counter, PeerCounter};
use crate::error::ProbeFault;
use crate::fold::{lemma_try_fold_error, lemma_try_fold_next, try_fold};
use crate::pattern::{
    captures_view, group_of, group_text, regex_accepts, regex_captures, GroupTexts, Groups,
    LinePattern,
};
use crate::text::{
    chars_of, chars_views, decimal_u64, dotted_ipv4, lines, parse_decimal, parse_ipv4, text_lines,
};
use vstd::prelude::*;

verus! {

/// The line that opens a peer: group 1 is the peer's address.
pub const NEIGHBOR_PATTERN: &'static str = r"Neighbor address:\D+([\d\.]+)";

/// The line with the updates received from the peer: group 1 is their number.
pub const IMPORT_PATTERN: &'static str = r"Import updates:\D+([\d\.]+)";

/// The line with the updates sent to the peer: group 1 is their number. It
/// closes the peer.
pub const EXPORT_PATTERN: &'static str = r"Export updates:\D+([\d\.]+)";

/// How far a scan has come: the peers recorded so far, the address of the
/// peer that is open, and the import count seen for it, zero if none was.
pub struct Scan {
    pub pending: Option<u32>,
    pub rx: u64,
    pub peers: Counter,
}

/// What a [`Scan`] stands for in contracts.
pub struct ScanView {
    pub pending: Option<u32>,
    pub rx: u64,
    pub peers: Map<u32, PeerCounter>,
}

impl View for Scan {
    type V = ScanView;

    open spec fn view(&self) -> ScanView {
        ScanView { pending: self.pending, rx: self.rx, peers: self.peers@ }
    }
}

/// The view of a scan that may have failed.
pub open spec fn scan_view(r: Result<Scan, ProbeFault>) -> Result<ScanView, ProbeFault> {
    match r {
        Ok(scan) => Ok(scan@),
        Err(e) => Err(e),
    }
}

/// A scan that has seen nothing.
pub open spec fn start() -> ScanView {
    ScanView { pending: None, rx: 0, peers: Map::empty() }
}

/// The scan after a line that opens a peer. An import count seen before
/// belongs to an earlier peer, whose block was cut short, and is dropped.
pub open spec fn after_neighbor(scan: ScanView, groups: GroupTexts) -> Result<
    ScanView,
    ProbeFault,
> {
    match group_text(groups, 1) {
        None => Err(ProbeFault::Address),
        Some(text) => match dotted_ipv4(text) {
            None => Err(ProbeFault::Address),
            Some(addr) => Ok(ScanView { pending: Some(addr), rx: 0, peers: scan.peers }),
        },
    }
}

/// The scan after a line with an import count.
pub open spec fn after_import(scan: ScanView, groups: GroupTexts) -> Result<
    ScanView,
    ProbeFault,
> {
    match group_text(groups, 1) {
        None => Err(ProbeFault::Count),
        Some(text) => match decimal_u64(text) {
            None => Err(ProbeFault::Count),
            Some(rx) => Ok(ScanView { pending: scan.pending, rx, peers: scan.peers }),
        },
    }
}

/// The scan after a line with an export count, which closes the open peer.
/// The peer is recorded only if its import count is not zero: a zero there
/// means that its counters have not started, and the export count is then
/// not even read.
pub open spec fn after_export(scan: ScanView, groups: GroupTexts) -> Result<
    ScanView,
    ProbeFault,
> {
    match scan.pending {
        None => Err(ProbeFault::Orphan),
        Some(addr) => if scan.rx == 0 {
            Ok(ScanView { pending: None, rx: 0, peers: scan.peers })
        } else {
            match group_text(groups, 1) {
                None => Err(ProbeFault::Count),
                Some(text) => match decimal_u64(text) {
                    None => Err(ProbeFault::Count),
                    Some(tx) => Ok(
                        ScanView {
                            pending: None,
                            rx: 0,
                            peers: scan.peers.insert(addr, PeerCounter { tx, rx: scan.rx }),
                        },
                    ),
                },
            }
        },
    }
}

/// The scan after one line, from what the three patterns gave on it. The
/// first pattern that matches decides what the line is; a line that none
/// matches changes nothing.
pub open spec fn after_line(
    scan: ScanView,
    neighbor: Option<GroupTexts>,
    import: Option<GroupTexts>,
    export: Option<GroupTexts>,
) -> Result<ScanView, ProbeFault> {
    match neighbor {
        Some(groups) => after_neighbor(scan, groups),
        None => match import {
            Some(groups) => after_import(scan, groups),
            None => match export {
                Some(groups) => after_export(scan, groups),
                None => Ok(scan),
            },
        },
    }
}

/// One step of the scan over lines.
pub open spec fn line_step() -> spec_fn(ScanView, Seq<char>) -> Result<ScanView, ProbeFault> {
    |scan: ScanView, line: Seq<char>|
        after_line(
            scan,
            regex_captures(NEIGHBOR_PATTERN@, line),
            regex_captures(IMPORT_PATTERN@, line),
            regex_captures(EXPORT_PATTERN@, line),
        )
}

/// The capture that the text `output` gives: its lines scanned in order.
pub open spec fn counter_of(output: Seq<char>) -> Result<Map<u32, PeerCounter>, ProbeFault> {
    match try_fold(text_lines(output), start(), line_step()) {
        Ok(scan) => Ok(scan.peers),
        Err(e) => Err(e),
    }
}

/// Advances a scan by one line, given what the three patterns found on it.
/// What a later pattern found is not looked at once an earlier one matched.
pub fn scan_line(
    scan: Scan,
    neighbor: &Option<Groups>,
    import: &Option<Groups>,
    export: &Option<Groups>,
) -> (r: Result<Scan, ProbeFault>)
    ensures
        scan_view(r) == after_line(
            scan@,
            captures_view(*neighbor),
            captures_view(*import),
            captures_view(*export),
        ),
{
    let mut scan = scan;
    if let Some(groups) = neighbor {
        let addr = match group_of(groups, 1) {
            Some(text) => match parse_ipv4(text.as_slice()) {
                Some(addr) => addr,
                None => {
                    return Err(ProbeFault::Address);
                },
            },
            None => {
                return Err(ProbeFault::Address);
            },
        };
        scan.pending = Some(addr);
        scan.rx = 0;
    } else if let Some(groups) = import {
        let rx = match group_of(groups, 1) {
            Some(text) => match parse_decimal(text.as_slice()) {
                Some(v) => v,
                None => {
                    return Err(ProbeFault::Count);
                },
            },
            None => {
                return Err(ProbeFault::Count);
            },
        };
        scan.rx = rx;
    } else if let Some(groups) = export {
        let addr = match scan.pending {
            Some(addr) => addr,
            None => {
                return Err(ProbeFault::Orphan);
            },
        };
        if scan.rx != 0 {
            let tx = match group_of(groups, 1) {
                Some(text) => match parse_decimal(text.as_slice()) {
                    Some(v) => v,
                    None => {
                        return Err(ProbeFault::Count);
                    },
                },
                None => {
                    return Err(ProbeFault::Count);
                },
            };
            scan.peers.insert(addr, PeerCounter { tx, rx: scan.rx });
        }
        scan.pending = None;
        scan.rx = 0;
    }
    Ok(scan)
}

/// The BIRD backend.
pub struct Bird {
    re1: LinePattern,
    re2: LinePattern,
    re3: LinePattern,
}

impl Bird {
    #[verifier::type_invariant]
    spec fn patterns_in_place(&self) -> bool {
        &&& self.re1.source() == NEIGHBOR_PATTERN@
        &&& self.re2.source() == IMPORT_PATTERN@
        &&& self.re3.source() == EXPORT_PATTERN@
    }

    /// Compiles the three line patterns; fails with [`ProbeFault::Pattern`]
    /// exactly when the engine does not accept one of them.
    pub fn new() -> (r: Result<Bird, ProbeFault>)
        ensures
            r is Ok <==> regex_accepts(NEIGHBOR_PATTERN@) && regex_accepts(IMPORT_PATTERN@)
                && regex_accepts(EXPORT_PATTERN@),
            r matches Err(e) ==> e == ProbeFault::Pattern,
    {
        let re1 = match LinePattern::compile(NEIGHBOR_PATTERN) {
            Ok(p) => p,
            Err(e) => {
                return Err(e);
            },
        };
        let re2 = match LinePattern::compile(IMPORT_PATTERN) {
            Ok(p) => p,
            Err(e) => {
                return Err(e);
            },
        };
        let re3 = match LinePattern::compile(EXPORT_PATTERN) {
            Ok(p) => p,
            Err(e) => {
                return Err(e);
            },
        };
        Ok(Bird { re1, re2, re3 })
    }

    /// Reads the capture out of `output`, the text that
    /// `birdc show protocols all` printed.
    pub fn get_counter(&self, output: &str) -> (r: Result<Counter, ProbeFault>)
        ensures
            counter_view(r) == counter_of(output@),
    {
        proof {
            use_type_invariant(self);
        }
        let text = chars_of(output);
        let all = lines(text.as_slice());
        let ghost views = chars_views(all@);
        let mut scan = Scan { pending: None, rx: 0, peers: Counter::new() };
        let mut i: usize = 0;
        assert(views.take(0) =~= Seq::<Seq<char>>::empty());
        while i < all.len()
            invariant
                i <= all.len(),
                views == chars_views(all@),
                views == text_lines(output@),
                self.re1.source() == NEIGHBOR_PATTERN@,
                self.re2.source() == IMPORT_PATTERN@,
                self.re3.source() == EXPORT_PATTERN@,
                try_fold(views.take(i as int), start(), line_step()) == Ok::<ScanView, ProbeFault>(
                    scan@,
                ),
            decreases all.len() - i,
        {
            let neighbor = self.re1.captures(&all[i]);
            let import = if neighbor.is_none() {
                self.re2.captures(&all[i])
            } else {
                None
            };
            let export = if neighbor.is_none() && import.is_none() {
                self.re3.captures(&all[i])
            } else {
                None
            };
            proof {
                assert(views[i as int] == all@[i as int]@);
                lemma_try_fold_next(views, start(), line_step(), i as int);
            }
            match scan_line(scan, &neighbor, &import, &export) {
                Ok(next) => {
                    scan = next;
                },
                Err(e) => {
                    proof {
                        lemma_try_fold_error(views, start(), line_step(), i + 1);
                    }
                    return Err(e);
                },
            }
            i += 1;
        }
        assert(views.take(all.len() as int) =~= views);
        Ok(scan.peers)
    }
}

/// A scan never records a peer with an import count of zero: whatever the
/// line holds, the peers recorded after it have the counts they had before,
/// or an import count that is not zero.
pub proof fn lemma_import_never_zero(
    scan: ScanView,
    neighbor: Option<GroupTexts>,
    import: Option<GroupTexts>,
    export: Option<GroupTexts>,
    peer: u32,
)
    requires
        after_line(scan, neighbor, import, export) is Ok,
        scan.peers.contains_key(peer) ==> scan.peers[peer].rx != 0,
    ensures
        ({
            let next = after_line(scan, neighbor, import, export)->Ok_0;
            next.peers.contains_key(peer) ==> next.peers[peer].rx != 0
        }),
{
}

/// No capture read from BIRD's output holds a peer with an import count of
/// zero.
pub proof fn lemma_counter_has_no_zero_import(output: Seq<char>, peer: u32)
    requires
        counter_of(output) is Ok,
        counter_of(output)->Ok_0.contains_key(peer),
    ensures
        counter_of(output)->Ok_0[peer].rx != 0,
{
    lemma_fold_has_no_zero_import(text_lines(output), peer);
}

proof fn lemma_fold_has_no_zero_import(all: Seq<Seq<char>>, peer: u32)
    requires
        try_fold(all, start(), line_step()) is Ok,
    ensures
        ({
            let scan = try_fold(all, start(), line_step())->Ok_0;
            scan.peers.contains_key(peer) ==> scan.peers[peer].rx != 0
        }),
    decreases all.len(),
{
    if all.len() > 0 {
        lemma_fold_has_no_zero_import(all.drop_last(), peer);
        let before = try_fold(all.drop_last(), start(), line_step())->Ok_0;
        lemma_import_never_zero(
            before,
            regex_captures(NEIGHBOR_PATTERN@, all.last()),
            regex_captures(IMPORT_PATTERN@, all.last()),
            regex_captures(EXPORT_PATTERN@, all.last()),
            peer,
        );
    }
}

} // verus!
