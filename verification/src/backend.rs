//! The four backends behind one face: which one a target names, how its
//! router is probed, and how the probe's output becomes a capture.

use crate::bird::Bird;
use crate::counter::{counter_view, Counter, PeerCounter};
use crate::error::{ProbeFault, WatchError};
use crate::frr::Frr;
use crate::gobgp::{GoBgp, PeerRecord};
use crate::openbgpd::OpenBgpd;
use crate::pattern::regex_accepts;
use crate::text::{chars_of, same_chars, text_of};
use vstd::prelude::*;
use vstd::utf8::{decode_utf8, valid_utf8};

verus! {

/// The hint given for a target that names no backend.
pub const TARGET_HINT: &'static str = "supported target: bird, frr, or openbgpd";

/// Where the GoBGP router answers its API calls.
pub const GOBGP_ENDPOINT: &'static str = "http://0.0.0.0:50051";

/// The command that unblocks inbound BGP traffic before polling starts.
pub open spec fn preflight_words() -> Seq<&'static str> {
    seq!["sudo", "iptables", "-D", "INPUT", "-p", "tcp", "--dport", "179", "-j", "DROP"]
}

/// The kinds of backend.
#[derive(Clone, Copy, Debug, PartialEq, Eq, Structural)]
pub enum BackendKind {
    /// GoBGP, asked through its structured API.
    GoBgp,
    /// FRR, asked through `vtysh`.
    Frr,
    /// BIRD, asked through `birdc`.
    Bird,
    /// OpenBGPD, asked through `bgpctl`.
    OpenBgpd,
}

/// A backend, chosen once at startup.
pub enum Backend {
    GoBgp(GoBgp),
    Frr(Frr),
    Bird(Bird),
    OpenBgpd(OpenBgpd),
}

/// What a probe brought back.
pub enum ProbeOutput {
    /// The probe could not be run, or the router did not answer it.
    Unanswered,
    /// The answers of a peer-listing call.
    Peers(Vec<PeerRecord>),
    /// The bytes that a command wrote to its standard output.
    Text(Vec<u8>),
}

/// The kind of backend that `target` names; no target means GoBGP.
pub open spec fn target_kind(target: Option<Seq<char>>) -> Option<BackendKind> {
    match target {
        None => Some(BackendKind::GoBgp),
        Some(name) => if name == "frr"@ {
            Some(BackendKind::Frr)
        } else if name == "bird"@ {
            Some(BackendKind::Bird)
        } else if name == "openbgpd"@ {
            Some(BackendKind::OpenBgpd)
        } else {
            None
        },
    }
}

/// Whether a backend of `kind` can be set up: the pattern engine must accept
/// the line patterns of the kinds that have some.
pub open spec fn can_set_up(kind: BackendKind) -> bool {
    match kind {
        BackendKind::Frr => regex_accepts(crate::frr::NEIGHBOR_PATTERN@) && regex_accepts(
            crate::frr::UPDATES_PATTERN@,
        ),
        BackendKind::Bird => regex_accepts(crate::bird::NEIGHBOR_PATTERN@) && regex_accepts(
            crate::bird::IMPORT_PATTERN@,
        ) && regex_accepts(crate::bird::EXPORT_PATTERN@),
        _ => true,
    }
}

/// The command, word by word, whose output a backend of `kind` reads;
/// nothing for the one that makes an API call.
pub open spec fn command_of(kind: BackendKind) -> Option<Seq<&'static str>> {
    match kind {
        BackendKind::GoBgp => None,
        BackendKind::Frr => Some(seq!["vtysh", "-c", "show bgp neighbors"]),
        BackendKind::Bird => Some(seq!["birdc", "show", "protocols", "all"]),
        BackendKind::OpenBgpd => Some(seq!["bgpctl", "-j", "show", "neighbor"]),
    }
}

/// The capture that a backend of `kind` reads from the text `output`.
pub open spec fn text_sample_of(kind: BackendKind, output: Seq<char>) -> Result<
    Map<u32, PeerCounter>,
    ProbeFault,
> {
    match kind {
        BackendKind::GoBgp => Err(ProbeFault::WrongInput),
        BackendKind::Frr => crate::frr::counter_of(output),
        BackendKind::Bird => crate::bird::counter_of(output),
        BackendKind::OpenBgpd => crate::openbgpd::counter_of(output),
    }
}

/// The capture that a backend of `kind` reads from `output`. A probe without
/// an answer is a fault, and so are output of a kind that the backend does
/// not read and bytes that are no UTF-8 text.
pub open spec fn sample_of(kind: BackendKind, output: ProbeOutput) -> Result<
    Map<u32, PeerCounter>,
    ProbeFault,
> {
    match output {
        ProbeOutput::Unanswered => Err(ProbeFault::Unreachable),
        ProbeOutput::Peers(records) => if kind == BackendKind::GoBgp {
            crate::gobgp::counter_of(records@)
        } else {
            Err(ProbeFault::WrongInput)
        },
        ProbeOutput::Text(bytes) => if kind == BackendKind::GoBgp {
            Err(ProbeFault::WrongInput)
        } else if valid_utf8(bytes@) {
            text_sample_of(kind, decode_utf8(bytes@))
        } else {
            Err(ProbeFault::Encoding)
        },
    }
}

/// The command that unblocks inbound BGP traffic, word by word.
pub fn preflight_command() -> (r: Vec<&'static str>)
    ensures
        r@ == preflight_words(),
{
    let mut words: Vec<&'static str> = Vec::new();
    words.push("sudo");
    words.push("iptables");
    words.push("-D");
    words.push("INPUT");
    words.push("-p");
    words.push("tcp");
    words.push("--dport");
    words.push("179");
    words.push("-j");
    words.push("DROP");
    assert(words@ =~= preflight_words());
    words
}

impl Backend {
    /// The kind of the backend.
    pub open spec fn spec_kind(&self) -> BackendKind {
        match self {
            Backend::GoBgp(_) => BackendKind::GoBgp,
            Backend::Frr(_) => BackendKind::Frr,
            Backend::Bird(_) => BackendKind::Bird,
            Backend::OpenBgpd(_) => BackendKind::OpenBgpd,
        }
    }

    /// The kind of the backend.
    #[verifier::when_used_as_spec(spec_kind)]
    pub fn kind(&self) -> (r: BackendKind)
        ensures
            r == self.spec_kind(),
    {
        match self {
            Backend::GoBgp(_) => BackendKind::GoBgp,
            Backend::Frr(_) => BackendKind::Frr,
            Backend::Bird(_) => BackendKind::Bird,
            Backend::OpenBgpd(_) => BackendKind::OpenBgpd,
        }
    }

    /// Sets up the backend that `target` names. A target that names none is
    /// answered with [`WatchError::UnrecognizedBackend`]; a backend whose
    /// line patterns the engine does not accept cannot probe.
    pub fn select(target: Option<&str>) -> (r: Result<Backend, WatchError>)
        ensures
            match target_kind(
                match target {
                    Some(name) => Some(name@),
                    None => None,
                },
            ) {
                None => r == Err::<Backend, WatchError>(WatchError::UnrecognizedBackend),
                Some(kind) => if can_set_up(kind) {
                    r matches Ok(backend) && backend.kind() == kind
                } else {
                    r == Err::<Backend, WatchError>(WatchError::ProbeFailed(ProbeFault::Pattern))
                },
            },
    {
        let name = match target {
            Some(name) => chars_of(name),
            None => {
                return Ok(Backend::GoBgp(GoBgp::new()));
            },
        };
        if same_chars(name.as_slice(), chars_of("frr").as_slice()) {
            match Frr::new() {
                Ok(frr) => Ok(Backend::Frr(frr)),
                Err(e) => Err(WatchError::ProbeFailed(e)),
            }
        } else if same_chars(name.as_slice(), chars_of("bird").as_slice()) {
            match Bird::new() {
                Ok(bird) => Ok(Backend::Bird(bird)),
                Err(e) => Err(WatchError::ProbeFailed(e)),
            }
        } else if same_chars(name.as_slice(), chars_of("openbgpd").as_slice()) {
            Ok(Backend::OpenBgpd(OpenBgpd::new()))
        } else {
            Err(WatchError::UnrecognizedBackend)
        }
    }

    /// The command, word by word, whose output the backend reads.
    pub fn command(&self) -> (r: Option<Vec<&'static str>>)
        ensures
            match r {
                Some(words) => command_of(self.kind()) == Some(words@),
                None => command_of(self.kind()) is None,
            },
    {
        let mut words: Vec<&'static str> = Vec::new();
        match self {
            Backend::GoBgp(_) => {
                return None;
            },
            Backend::Frr(_) => {
                words.push("vtysh");
                words.push("-c");
                words.push("show bgp neighbors");
                assert(words@ =~= seq!["vtysh", "-c", "show bgp neighbors"]);
            },
            Backend::Bird(_) => {
                words.push("birdc");
                words.push("show");
                words.push("protocols");
                words.push("all");
                assert(words@ =~= seq!["birdc", "show", "protocols", "all"]);
            },
            Backend::OpenBgpd(_) => {
                words.push("bgpctl");
                words.push("-j");
                words.push("show");
                words.push("neighbor");
                assert(words@ =~= seq!["bgpctl", "-j", "show", "neighbor"]);
            },
        }
        Some(words)
    }

    /// Turns what a probe brought back into a capture.
    pub fn sample(&self, output: &ProbeOutput) -> (r: Result<Counter, ProbeFault>)
        ensures
            counter_view(r) == sample_of(self.kind(), *output),
    {
        match output {
            ProbeOutput::Unanswered => Err(ProbeFault::Unreachable),
            ProbeOutput::Peers(records) => match self {
                Backend::GoBgp(gobgp) => gobgp.get_counter(records),
                _ => Err(ProbeFault::WrongInput),
            },
            ProbeOutput::Text(bytes) => {
                if let Backend::GoBgp(_) = self {
                    return Err(ProbeFault::WrongInput);
                }
                let text = match text_of(bytes.as_slice()) {
                    Some(text) => text,
                    None => {
                        return Err(ProbeFault::Encoding);
                    },
                };
                match self {
                    Backend::GoBgp(_) => Err(ProbeFault::WrongInput),
                    Backend::Frr(frr) => frr.get_counter(text),
                    Backend::Bird(bird) => bird.get_counter(text),
                    Backend::OpenBgpd(openbgpd) => openbgpd.get_counter(text),
                }
            },
        }
    }
}

} // verus!
