use pulsewave::app::{PingEvent, PingResult};
use pulsewave::ping::{PingAction, PingInput, PingPhase, PingSession};

fn expect_report(action: PingAction) -> (PingEvent, u16) {
    match action {
        PingAction::Report { event, next_seq } => (event, next_seq),
        _ => panic!("expected a report"),
    }
}

#[test]
fn session_probes_after_connecting() {
    let mut s = PingSession::new("example.com".to_string());
    assert_eq!(s.phase, PingPhase::Resolving);
    assert!(matches!(s.step(PingInput::Resolved), PingAction::Connect));
    assert_eq!(s.phase, PingPhase::Connecting);
    assert!(matches!(s.step(PingInput::ClientReady), PingAction::Probe { seq: 0 }));
    assert_eq!(s.phase, PingPhase::Pinging { seq: 0 });

    let (event, next) = expect_report(s.step(PingInput::Reply { latency_us: 12_500 }));
    assert_eq!(event.host, "example.com");
    assert!(matches!(event.result, PingResult::Reply { latency_us: 12_500 }));
    assert_eq!(next, 1);

    let (event, next) = expect_report(s.step(PingInput::NoReply));
    assert_eq!(event.host, "example.com");
    assert!(matches!(event.result, PingResult::Timeout));
    assert_eq!(next, 2);
    assert_eq!(s.phase, PingPhase::Pinging { seq: 2 });
}

#[test]
fn resolve_failure_is_reported_once() {
    let mut s = PingSession::new("nowhere.invalid".to_string());
    match s.step(PingInput::ResolveFailed("could not resolve host: nowhere.invalid".to_string())) {
        PingAction::ReportAndStop { event } => {
            assert_eq!(event.host, "nowhere.invalid");
            match event.result {
                PingResult::Error(msg) => assert_eq!(msg, "could not resolve host: nowhere.invalid"),
                _ => panic!("expected an error"),
            }
        }
        _ => panic!("expected report and stop"),
    }
    assert_eq!(s.phase, PingPhase::Finished);
    assert!(matches!(s.step(PingInput::Resolved), PingAction::Ignore));
    assert!(matches!(s.step(PingInput::NoReply), PingAction::Ignore));
    assert_eq!(s.phase, PingPhase::Finished);
}

#[test]
fn client_failure_ends_session() {
    let mut s = PingSession::new("h".to_string());
    s.step(PingInput::Resolved);
    assert!(matches!(
        s.step(PingInput::ClientFailed("permission denied".to_string())),
        PingAction::ReportAndStop { .. }
    ));
    assert_eq!(s.phase, PingPhase::Finished);
}

#[test]
fn out_of_place_inputs_are_ignored() {
    let mut s = PingSession::new("h".to_string());
    assert!(matches!(s.step(PingInput::ClientReady), PingAction::Ignore));
    assert!(matches!(s.step(PingInput::Reply { latency_us: 1 }), PingAction::Ignore));
    assert_eq!(s.phase, PingPhase::Resolving);
    s.step(PingInput::Resolved);
    assert!(matches!(s.step(PingInput::NoReply), PingAction::Ignore));
    assert_eq!(s.phase, PingPhase::Connecting);
}

#[test]
fn sequence_wraps_around() {
    let mut s = PingSession::new("h".to_string());
    s.step(PingInput::Resolved);
    s.step(PingInput::ClientReady);
    for _ in 0..65_535u32 {
        s.step(PingInput::NoReply);
    }
    assert_eq!(s.phase, PingPhase::Pinging { seq: 65_535 });
    let (_, next) = expect_report(s.step(PingInput::Reply { latency_us: 1 }));
    assert_eq!(next, 0);
    assert_eq!(s.phase, PingPhase::Pinging { seq: 0 });
}
