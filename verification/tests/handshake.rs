use voice_join::session::begin_join;
use voice_join::session::begin_leave;
use voice_join::session::step;
use voice_join::session::Session;
use voice_join::session::SessionEvent;
use voice_join::session::Stage;
use voice_join::ConnectionError;
use voice_join::JoinError;

/// Stands in for a gateway transport and records whether it was invoked.
struct RecordingTransport {
    invoked: bool,
}

impl RecordingTransport {
    fn new() -> RecordingTransport {
        RecordingTransport { invoked: false }
    }

    /// Sends the voice-state command; here, only records the attempt.
    fn send(&mut self) -> SessionEvent {
        self.invoked = true;
        SessionEvent::Sent
    }
}

/// Drives a session as the orchestration loop would: sends through the
/// transport exactly when the session awaits a send.
fn pump(transport: &mut RecordingTransport, session: Session) -> Session {
    match session.stage {
        Stage::AwaitingSend => {
            let ev = transport.send();
            step(session, ev)
        }
        _ => session,
    }
}

#[test]
fn zero_guild_fails_before_any_transport_interaction() {
    let mut transport = RecordingTransport::new();
    let r = begin_join(true, 0, 5);
    match r {
        Err(e) => assert!(matches!(e, JoinError::IllegalGuild)),
        Ok(s) => {
            pump(&mut transport, s);
            panic!("a zero guild id must not produce a session");
        }
    }
    assert!(!transport.invoked);
}

#[test]
fn zero_channel_fails_before_any_transport_interaction() {
    let mut transport = RecordingTransport::new();
    let r = begin_join(true, 5, 0);
    match r {
        Err(e) => assert!(matches!(e, JoinError::IllegalChannel)),
        Ok(s) => {
            pump(&mut transport, s);
            panic!("a zero channel id must not produce a session");
        }
    }
    assert!(!transport.invoked);
}

#[test]
fn missing_sender_is_reported() {
    let r = begin_join(false, 5, 7);
    assert!(matches!(r, Err(JoinError::NoSender)));
}

#[test]
fn leave_of_untracked_guild_is_no_call() {
    let r = begin_leave(true, false, 5);
    assert!(matches!(r, Err(JoinError::NoCall)));
}

#[test]
fn leave_of_zero_guild_is_illegal_guild() {
    let r = begin_leave(true, true, 0);
    assert!(matches!(r, Err(JoinError::IllegalGuild)));
}

#[test]
fn leave_without_sender_is_no_sender() {
    let r = begin_leave(false, true, 5);
    assert!(matches!(r, Err(JoinError::NoSender)));
}

#[test]
fn missed_deadline_times_out_and_asks_for_a_leave() {
    let s = begin_join(true, 5, 7).expect("valid ids and a sender");
    let s = step(s, SessionEvent::Sent);
    let s = step(s, SessionEvent::DeadlineElapsed);
    match s.stage {
        Stage::Failed(e) => {
            assert!(e.should_leave_server());
            assert!(!e.should_reconnect_driver());
            assert!(matches!(e, JoinError::TimedOut));
        }
        _ => panic!("an elapsed deadline must resolve the session"),
    }
}

#[test]
fn driver_failure_asks_for_a_driver_reconnect_only() {
    let s = begin_join(true, 5, 7).expect("valid ids and a sender");
    let s = step(s, SessionEvent::Sent);
    let s = step(s, SessionEvent::Confirmed);
    let failure = ConnectionError::new(String::from("udp handshake failed"));
    let s = step(s, SessionEvent::DriverFailed(failure));
    match s.stage {
        Stage::Failed(e) => {
            assert!(e.should_reconnect_driver());
            assert!(!e.should_leave_server());
            assert!(matches!(e, JoinError::Driver(_)));
        }
        _ => panic!("a driver failure must resolve the session"),
    }
}

#[test]
fn successful_handshake_joins() {
    let s = begin_join(true, 5, 7).expect("valid ids and a sender");
    assert_eq!(s.guild_id, 5);
    assert_eq!(s.channel_id, 7);
    let s = step(s, SessionEvent::Sent);
    let s = step(s, SessionEvent::Confirmed);
    let s = step(s, SessionEvent::DriverConnected);
    assert!(matches!(s.stage, Stage::Joined));
}

#[test]
fn cancellation_wins_over_a_late_confirmation() {
    let s = begin_join(true, 5, 7).expect("valid ids and a sender");
    let s = step(s, SessionEvent::Sent);
    let s = step(s, SessionEvent::Cancelled);
    assert!(matches!(s.stage, Stage::Failed(JoinError::Dropped)));
    let s = step(s, SessionEvent::Confirmed);
    assert!(matches!(s.stage, Stage::Failed(JoinError::Dropped)));
    let s = step(s, SessionEvent::DriverConnected);
    assert!(matches!(s.stage, Stage::Failed(JoinError::Dropped)));
}

#[test]
fn superseded_request_drops_and_newer_request_is_unaffected() {
    let earlier = begin_join(true, 5, 7).expect("valid ids and a sender");
    let earlier = step(earlier, SessionEvent::Sent);
    let newer = begin_join(true, 5, 9).expect("valid ids and a sender");
    let earlier = step(earlier, SessionEvent::Cancelled);
    assert!(matches!(earlier.stage, Stage::Failed(JoinError::Dropped)));
    let newer = step(newer, SessionEvent::Sent);
    let newer = step(newer, SessionEvent::Confirmed);
    let newer = step(newer, SessionEvent::DriverConnected);
    assert!(matches!(newer.stage, Stage::Joined));
    assert_eq!(newer.channel_id, 9);
}

#[test]
fn rejected_send_resolves_with_the_carried_error() {
    let s = begin_join(true, 5, 7).expect("valid ids and a sender");
    let s = step(s, SessionEvent::SendRejected(JoinError::NoSender));
    assert!(matches!(s.stage, Stage::Failed(JoinError::NoSender)));
}
