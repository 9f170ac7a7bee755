use chat_router::connection::ConnectionRegistry;
use chat_router::gateway::{
    Gateway, GatewayState, Handshake, HandshakeOutcome, PumpAction, PumpEvent, Refusal,
};
use chat_router::session::{Session, SessionRegistry};

fn refusal(outcome: HandshakeOutcome) -> Refusal {
    match outcome {
        HandshakeOutcome::Refused(reason) => reason,
        HandshakeOutcome::Bound { .. } => panic!("the handshake was not refused"),
    }
}

#[test]
fn valid_handshake_binds_and_registers() {
    let mut sessions = SessionRegistry::new(4);
    let mut connections = ConnectionRegistry::new();
    sessions.bind(11, 1);
    let mut gateway = Gateway::new();
    assert_eq!(gateway.current(), GatewayState::Unauthenticated);
    let outcome =
        gateway.handshake(Handshake::Auth(Session { session_id: 11 }), &mut sessions, &mut connections);
    match outcome {
        HandshakeOutcome::Bound { mut inbox, superseded } => {
            assert!(superseded.is_none());
            assert_eq!(gateway.current(), GatewayState::Bound { user: 1, connection: 0 });
            let live = connections.lookup(1).expect("the user is connected");
            assert_eq!(live.id, 0);
            live.outbound.try_send("ping".to_string()).unwrap();
            assert_eq!(inbox.try_recv().ok(), Some("ping".to_string()));
        }
        HandshakeOutcome::Refused(_) => panic!("the handshake was refused"),
    }
}

#[test]
fn anything_but_an_auth_envelope_terminates() {
    for frame in [Handshake::WrongKind, Handshake::Malformed, Handshake::SocketError, Handshake::NoFrame] {
        let mut sessions = SessionRegistry::new(4);
        let mut connections = ConnectionRegistry::new();
        sessions.bind(11, 1);
        let mut gateway = Gateway::new();
        let outcome = gateway.handshake(frame, &mut sessions, &mut connections);
        assert_eq!(refusal(outcome), Refusal::ProtocolViolation);
        assert_eq!(gateway.current(), GatewayState::Terminated);
        assert!(connections.lookup(1).is_none());
    }
}

#[test]
fn unknown_session_terminates_without_registering() {
    let mut sessions = SessionRegistry::new(4);
    let mut connections = ConnectionRegistry::new();
    sessions.bind(11, 1);
    let mut gateway = Gateway::new();
    let outcome =
        gateway.handshake(Handshake::Auth(Session { session_id: 12 }), &mut sessions, &mut connections);
    assert_eq!(refusal(outcome), Refusal::Unauthenticated);
    assert_eq!(gateway.current(), GatewayState::Terminated);
    assert!(connections.lookup(1).is_none());
}

#[test]
fn a_connection_has_one_handshake() {
    let mut sessions = SessionRegistry::new(4);
    let mut connections = ConnectionRegistry::new();
    sessions.bind(11, 1);
    let mut gateway = Gateway::new();
    let first =
        gateway.handshake(Handshake::Auth(Session { session_id: 11 }), &mut sessions, &mut connections);
    assert!(matches!(first, HandshakeOutcome::Bound { .. }));
    let second =
        gateway.handshake(Handshake::Auth(Session { session_id: 11 }), &mut sessions, &mut connections);
    assert_eq!(refusal(second), Refusal::AlreadyDecided);
    assert_eq!(gateway.current(), GatewayState::Bound { user: 1, connection: 0 });
    assert_eq!(connections.lookup(1).map(|c| c.id), Some(0));

    let mut ended = Gateway::new();
    ended.handshake(Handshake::NoFrame, &mut sessions, &mut connections);
    let again =
        ended.handshake(Handshake::Auth(Session { session_id: 11 }), &mut sessions, &mut connections);
    assert_eq!(refusal(again), Refusal::AlreadyDecided);
    assert_eq!(ended.current(), GatewayState::Terminated);
}

#[test]
fn pump_forwards_outbound_texts_unchanged() {
    let mut sessions = SessionRegistry::new(4);
    let mut connections = ConnectionRegistry::new();
    sessions.bind(11, 1);
    let mut gateway = Gateway::new();
    gateway.handshake(Handshake::Auth(Session { session_id: 11 }), &mut sessions, &mut connections);
    match gateway.pump(PumpEvent::Outbound("payload".to_string()), &mut connections) {
        PumpAction::Forward(text) => assert_eq!(text, "payload"),
        PumpAction::Close => panic!("the text was not forwarded"),
    }
    assert_eq!(gateway.current(), GatewayState::Bound { user: 1, connection: 0 });
    assert!(connections.lookup(1).is_some());
}

#[test]
fn end_of_a_connection_unregisters_it() {
    for event in [PumpEvent::WireError, PumpEvent::WireClosed, PumpEvent::ChannelClosed] {
        let mut sessions = SessionRegistry::new(4);
        let mut connections = ConnectionRegistry::new();
        sessions.bind(11, 1);
        let mut gateway = Gateway::new();
        gateway.handshake(Handshake::Auth(Session { session_id: 11 }), &mut sessions, &mut connections);
        assert!(matches!(gateway.pump(event, &mut connections), PumpAction::Close));
        assert_eq!(gateway.current(), GatewayState::Terminated);
        assert!(connections.lookup(1).is_none());
    }
}

#[test]
fn late_end_of_a_superseded_connection_keeps_the_newer() {
    let mut sessions = SessionRegistry::new(4);
    let mut connections = ConnectionRegistry::new();
    sessions.bind(11, 1);
    sessions.bind(12, 1);
    let mut first = Gateway::new();
    let mut second = Gateway::new();
    first.handshake(Handshake::Auth(Session { session_id: 11 }), &mut sessions, &mut connections);
    let outcome =
        second.handshake(Handshake::Auth(Session { session_id: 12 }), &mut sessions, &mut connections);
    match outcome {
        HandshakeOutcome::Bound { superseded, .. } => {
            assert_eq!(superseded.map(|c| c.id), Some(0));
        }
        HandshakeOutcome::Refused(_) => panic!("the handshake was refused"),
    }
    assert!(matches!(first.pump(PumpEvent::WireClosed, &mut connections), PumpAction::Close));
    assert_eq!(first.current(), GatewayState::Terminated);
    assert_eq!(connections.lookup(1).map(|c| c.id), Some(1));
    assert_eq!(second.current(), GatewayState::Bound { user: 1, connection: 1 });
}

#[test]
fn unbound_connection_forwards_nothing() {
    let mut connections = ConnectionRegistry::new();
    let mut gateway = Gateway::new();
    assert!(matches!(
        gateway.pump(PumpEvent::Outbound("x".to_string()), &mut connections),
        PumpAction::Close
    ));
    assert_eq!(gateway.current(), GatewayState::Terminated);
    assert!(matches!(gateway.pump(PumpEvent::WireClosed, &mut connections), PumpAction::Close));
    assert_eq!(gateway.current(), GatewayState::Terminated);
}
