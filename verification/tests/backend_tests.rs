use update_watcher::backend::{
    preflight_command, Backend, BackendKind, ProbeOutput, GOBGP_ENDPOINT, TARGET_HINT,
};
use update_watcher::counter::PeerCounter;
use update_watcher::error::{preflight_outcome, ProbeFault, WatchError};
use update_watcher::gobgp::{PeerMessages, PeerRecord, PeerState};
use update_watcher::poll::PollLoop;
use update_watcher::text::ipv4_from_octets;
use update_watcher::window::DEFAULT_CAPACITY;

#[test]
fn select_by_target() {
    assert_eq!(Backend::select(None).ok().unwrap().kind(), BackendKind::GoBgp);
    assert_eq!(Backend::select(Some("frr")).ok().unwrap().kind(), BackendKind::Frr);
    assert_eq!(Backend::select(Some("bird")).ok().unwrap().kind(), BackendKind::Bird);
    assert_eq!(Backend::select(Some("openbgpd")).ok().unwrap().kind(), BackendKind::OpenBgpd);
}

#[test]
fn select_rejects_other_targets() {
    for target in ["", "gobgp", "FRR", "frr ", "bird2", "openbgp"] {
        match Backend::select(Some(target)) {
            Err(e) => assert_eq!(e, WatchError::UnrecognizedBackend),
            Ok(_) => panic!("{} was taken for a backend", target),
        }
    }
    assert_eq!(TARGET_HINT, "supported target: bird, frr, or openbgpd");
}

#[test]
fn command_by_backend() {
    assert_eq!(Backend::select(None).ok().unwrap().command(), None);
    assert_eq!(
        Backend::select(Some("frr")).ok().unwrap().command(),
        Some(vec!["vtysh", "-c", "show bgp neighbors"])
    );
    assert_eq!(
        Backend::select(Some("bird")).ok().unwrap().command(),
        Some(vec!["birdc", "show", "protocols", "all"])
    );
    assert_eq!(
        Backend::select(Some("openbgpd")).ok().unwrap().command(),
        Some(vec!["bgpctl", "-j", "show", "neighbor"])
    );
    assert_eq!(GOBGP_ENDPOINT, "http://0.0.0.0:50051");
    assert_eq!(
        preflight_command(),
        vec!["sudo", "iptables", "-D", "INPUT", "-p", "tcp", "--dport", "179", "-j", "DROP"]
    );
}

#[test]
fn sample_reads_the_output_of_its_own_kind() {
    let two = ipv4_from_octets(10, 0, 0, 2);
    let frr = Backend::select(Some("frr")).ok().unwrap();
    let out = ProbeOutput::Text(b"BGP neighbor is 10.0.0.2\n Updates: 1 2\n".to_vec());
    assert_eq!(frr.sample(&out).ok().unwrap().get(two), Some(PeerCounter { tx: 1, rx: 2 }));

    let bird = Backend::select(Some("bird")).ok().unwrap();
    let out = ProbeOutput::Text(
        b"Neighbor address: 10.0.0.2\nImport updates: 3\nExport updates: 4\n".to_vec(),
    );
    assert_eq!(bird.sample(&out).ok().unwrap().get(two), Some(PeerCounter { tx: 4, rx: 3 }));

    let openbgpd = Backend::select(Some("openbgpd")).ok().unwrap();
    let out = ProbeOutput::Text(
        br#"{"neighbors":[{"remote_addr":"10.0.0.2","stats":{"message":{"sent":{"updates":5},"received":{"updates":6}}}}]}"#
            .to_vec(),
    );
    assert_eq!(openbgpd.sample(&out).ok().unwrap().get(two), Some(PeerCounter { tx: 5, rx: 6 }));

    let gobgp = Backend::select(None).ok().unwrap();
    let out = ProbeOutput::Peers(vec![PeerRecord {
        state: Some(PeerState {
            neighbor_address: "10.0.0.2".to_string(),
            messages: Some(PeerMessages { sent: Some(7), received: Some(8) }),
        }),
    }]);
    assert_eq!(gobgp.sample(&out).ok().unwrap().get(two), Some(PeerCounter { tx: 7, rx: 8 }));
}

#[test]
fn sample_refuses_output_of_another_kind() {
    let text = ProbeOutput::Text(Vec::new());
    let peers = ProbeOutput::Peers(Vec::new());
    assert_eq!(Backend::select(None).ok().unwrap().sample(&text).err(), Some(ProbeFault::WrongInput));
    for target in ["frr", "bird", "openbgpd"] {
        let b = Backend::select(Some(target)).ok().unwrap();
        assert_eq!(b.sample(&peers).err(), Some(ProbeFault::WrongInput));
    }
}

#[test]
fn failures_and_exit_status() {
    assert!(WatchError::ProbeFailed(ProbeFault::Document).is_fatal());
    assert!(WatchError::PreflightFailed.is_fatal());
    assert!(!WatchError::UnrecognizedBackend.is_fatal());
    assert_eq!(WatchError::ProbeFailed(ProbeFault::Orphan).exit_status(), 1);
    assert_eq!(WatchError::PreflightFailed.exit_status(), 1);
    assert_eq!(WatchError::UnrecognizedBackend.exit_status(), 0);
    assert_eq!(preflight_outcome(true), Ok(()));
    assert_eq!(preflight_outcome(false), Err(WatchError::PreflightFailed));
}

#[test]
fn a_run_from_probe_output_to_report() {
    let bird = Backend::select(Some("bird")).ok().unwrap();
    let mut run = PollLoop::new(DEFAULT_CAPACITY, 0);
    let quiet = "Neighbor address: 10.0.0.2\nImport updates: 0\nExport updates: 0\n";
    let busy = "Neighbor address: 10.0.0.2\nImport updates: 3\nExport updates: 4\n";
    let mut seen = Vec::new();
    for (now, text) in [quiet, busy, busy, busy].iter().enumerate() {
        let sampled = bird.sample(&ProbeOutput::Text(text.as_bytes().to_vec()));
        let report = run.observe(sampled, now as u64 * 1000).ok().unwrap();
        seen.push((report.elapsed, report.peer_count, report.stabilized));
    }
    assert_eq!(seen, vec![(0, 0, false), (1000, 1, false), (2000, 1, false), (3000, 1, true)]);
    let failed = run.observe(bird.sample(&ProbeOutput::Unanswered), 4000);
    assert_eq!(failed, Err(WatchError::ProbeFailed(ProbeFault::Unreachable)));
    let report = run.observe(bird.sample(&ProbeOutput::Text(busy.as_bytes().to_vec())), 5000);
    assert_eq!(report.ok().unwrap().stabilized, true);
}

#[test]
fn sample_of_an_unanswered_probe_is_a_fault() {
    for target in [None, Some("frr"), Some("bird"), Some("openbgpd")] {
        let b = Backend::select(target).ok().unwrap();
        assert_eq!(b.sample(&ProbeOutput::Unanswered).err(), Some(ProbeFault::Unreachable));
    }
}

#[test]
fn sample_of_bytes_that_are_no_text_is_a_fault() {
    for target in ["frr", "bird", "openbgpd"] {
        let b = Backend::select(Some(target)).ok().unwrap();
        let broken = ProbeOutput::Text(vec![b'a', 0xff, b'\n']);
        assert_eq!(b.sample(&broken).err(), Some(ProbeFault::Encoding));
        let cut_short = ProbeOutput::Text(vec![0xe2, 0x82]);
        assert_eq!(b.sample(&cut_short).err(), Some(ProbeFault::Encoding));
    }
    let frr = Backend::select(Some("frr")).ok().unwrap();
    let euro = ProbeOutput::Text("\u{20ac} BGP\n".as_bytes().to_vec());
    assert_eq!(frr.sample(&euro).ok().unwrap().len(), 0);
}

#[test]
fn a_session_without_traffic_never_gives_a_verdict() {
    let idle_text: [(Option<&str>, &str); 3] = [
        (Some("frr"), "BGP neighbor is 10.0.0.2\n Updates: 0 0\n"),
        (Some("bird"), "Neighbor address: 10.0.0.2\nImport updates: 4\nExport updates: 0\n"),
        (
            Some("openbgpd"),
            r#"{"neighbors":[{"remote_addr":"10.0.0.2","stats":{"message":{"sent":{"updates":0},"received":{"updates":3}}}}]}"#,
        ),
    ];
    for (target, text) in idle_text {
        let backend = Backend::select(target).ok().unwrap();
        let mut run = PollLoop::new(DEFAULT_CAPACITY, 0);
        for now in 0..5 {
            let sampled = backend.sample(&ProbeOutput::Text(text.as_bytes().to_vec()));
            let report = run.observe(sampled, now).ok().unwrap();
            assert_eq!((report.peer_count, report.stabilized), (1, false));
        }
    }
    let gobgp = Backend::select(None).ok().unwrap();
    let mut run = PollLoop::new(DEFAULT_CAPACITY, 0);
    for now in 0..5 {
        let idle = ProbeOutput::Peers(vec![PeerRecord {
            state: Some(PeerState {
                neighbor_address: "10.0.0.2".to_string(),
                messages: Some(PeerMessages { sent: Some(0), received: Some(0) }),
            }),
        }]);
        let report = run.observe(gobgp.sample(&idle), now).ok().unwrap();
        assert_eq!((report.peer_count, report.stabilized), (1, false));
    }
}
