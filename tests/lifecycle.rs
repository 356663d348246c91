use mdns_peer::identifier::{decode_identifier, DEFAULT_IDENTIFIER};
use mdns_peer::lifecycle::{ProcessState, StartDecision, StopDecision};

#[test]
fn decode_accepts_utf8() {
    assert_eq!(decode_identifier(Some(b"alice".to_vec())), Some("alice".to_string()));
    assert_eq!(
        decode_identifier(Some("caf\u{e9}".as_bytes().to_vec())),
        Some("caf\u{e9}".to_string())
    );
    assert_eq!(decode_identifier(Some(Vec::new())), Some(String::new()));
}

#[test]
fn decode_rejects_missing_and_invalid() {
    assert_eq!(decode_identifier(None), None);
    assert_eq!(decode_identifier(Some(vec![0x61, 0xff, 0x62])), None);
    assert_eq!(decode_identifier(Some(vec![0xc3])), None);
}

#[test]
fn default_identifier_is_bob() {
    assert_eq!(DEFAULT_IDENTIFIER, "bob");
}

#[test]
fn stop_before_any_start_is_a_no_op() {
    let s = ProcessState::new();
    assert_eq!(s.stop(), StopDecision::NeverStarted);
    assert_eq!(s.stop(), StopDecision::NeverStarted);
    assert!(!s.coordinator_ready());
    assert!(!s.runtime_ready());
}

#[test]
fn first_start_creates_then_restart_reuses() {
    let mut s = ProcessState::new();
    let d = s.start(Some(b"alice".to_vec()));
    assert!(d.is_accepted());
    match d {
        StartDecision::Launch { identifier, create_runtime, create_coordinator } => {
            assert_eq!(identifier, "alice");
            assert!(create_runtime);
            assert!(create_coordinator);
        }
        StartDecision::Rejected => panic!("valid identifier rejected"),
    }
    let d = s.start(Some(b"bob".to_vec()));
    match d {
        StartDecision::Launch { identifier, create_runtime, create_coordinator } => {
            assert_eq!(identifier, "bob");
            assert!(!create_runtime);
            assert!(!create_coordinator);
        }
        StartDecision::Rejected => panic!("valid identifier rejected"),
    }
    assert!(s.runtime_ready() && s.coordinator_ready());
}

#[test]
fn invalid_start_creates_nothing() {
    let mut s = ProcessState::new();
    assert!(!s.start(None).is_accepted());
    assert!(!s.start(Some(vec![0xfe])).is_accepted());
    assert!(!s.runtime_ready());
    assert!(!s.coordinator_ready());
    assert_eq!(s.stop(), StopDecision::NeverStarted);
}

#[test]
fn stop_after_start_broadcasts_every_time() {
    let mut s = ProcessState::new();
    assert!(s.start_with("bob".to_string()).is_accepted());
    for _ in 0..3 {
        assert_eq!(s.stop(), StopDecision::Broadcast);
    }
    assert!(s.coordinator_ready());
}
