use mdns_peer::discovery::PeerId;
use mdns_peer::session::{PeerSession, SessionAction, SessionEvent, SessionPhase};

#[test]
fn session_runs_from_bind_to_close() {
    let mut s = PeerSession::new("alice".to_string());
    assert_eq!(s.identifier(), "alice");
    assert_eq!(s.phase(), SessionPhase::Binding);
    match s.step(SessionEvent::Bound { self_id: PeerId { key: vec![9; 32] } }) {
        SessionAction::SpawnTasks { consumer, reporter } => {
            assert!(!consumer.is_stopped());
            assert!(!reporter.is_stopped());
        }
        _ => panic!("tasks not spawned"),
    }
    assert_eq!(s.phase(), SessionPhase::Running);
    assert!(matches!(s.step(SessionEvent::ShutdownObserved), SessionAction::CloseEndpoint));
    assert_eq!(s.phase(), SessionPhase::Closing);
    assert!(matches!(s.step(SessionEvent::ShutdownObserved), SessionAction::Ignore));
    assert!(matches!(s.step(SessionEvent::Closed), SessionAction::Complete));
    assert_eq!(s.phase(), SessionPhase::Finished);
    assert!(matches!(s.step(SessionEvent::ShutdownObserved), SessionAction::Ignore));
    assert_eq!(s.phase(), SessionPhase::Finished);
}

#[test]
fn bind_failure_aborts_the_session() {
    let mut s = PeerSession::new("alice".to_string());
    match s.step(SessionEvent::BindFailed { reason: "no socket".to_string() }) {
        SessionAction::Abort { reason } => assert_eq!(reason, "no socket"),
        _ => panic!("not aborted"),
    }
    assert_eq!(s.phase(), SessionPhase::Failed);
    assert!(matches!(s.step(SessionEvent::Closed), SessionAction::Ignore));
    assert_eq!(s.phase(), SessionPhase::Failed);
}

#[test]
fn shutdown_before_bind_is_ignored() {
    let mut s = PeerSession::new("bob".to_string());
    assert!(matches!(s.step(SessionEvent::ShutdownObserved), SessionAction::Ignore));
    assert_eq!(s.phase(), SessionPhase::Binding);
}
