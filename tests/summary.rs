use mdns_peer::summary::{summarize, ReporterInput, Summary, SummaryReporter, SUMMARY_PERIOD_SECS};

#[test]
fn zero_peers_is_a_warning() {
    assert_eq!(summarize(0), Summary::NoPeers);
    assert!(summarize(0).is_warning());
}

#[test]
fn nonzero_peers_carry_the_count() {
    assert_eq!(summarize(1), Summary::Peers(1));
    assert_eq!(summarize(3), Summary::Peers(3));
    assert_eq!(summarize(usize::MAX), Summary::Peers(usize::MAX));
    assert!(!summarize(3).is_warning());
}

#[test]
fn period_is_five_seconds() {
    assert_eq!(SUMMARY_PERIOD_SECS, 5);
}

#[test]
fn reporter_ticks_until_shutdown() {
    let mut r = SummaryReporter::new();
    assert_eq!(r.step(ReporterInput::Tick { known_peers: 0 }), Some(Summary::NoPeers));
    assert_eq!(r.step(ReporterInput::Tick { known_peers: 2 }), Some(Summary::Peers(2)));
    assert!(!r.is_stopped());
    assert_eq!(r.step(ReporterInput::Shutdown), None);
    assert!(r.is_stopped());
    assert_eq!(r.step(ReporterInput::Tick { known_peers: 4 }), None);
    assert_eq!(r.step(ReporterInput::Shutdown), None);
    assert!(r.is_stopped());
}
