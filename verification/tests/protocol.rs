use duangler::client::transport_client::{
    after_handshake, on_hello_reply, on_idle as client_on_idle, pinned_server_cert,
    reconnect_delay_secs, IdleInput as ClientIdleInput, SessionError as ClientSessionError,
    SessionState, RECONNECT_DELAY_SECS,
};
use duangler::protocol::inbox::{
    check_hello_reply, expect_event, hello_reply, versions_match, ClientError, ClientHello,
    ServerHello, ServerMessage as InboxServerMessage,
};
use duangler::protocol::{
    ClientMessage, HelloMessage, HelloReply, HelloReplyError, ServerMessage as HandshakeMessage,
    Sha256, UpgradeTransportRequest, UpgradeTransportResponse,
};
use duangler::server::transport_server::{
    accept_incoming_connection, after_relay, operator_accepts, on_hello_message, on_idle, on_upgrade_transport_reply,
    route_event, EventRoute, IdleInput, SessionError, State,
};
use duangler::transport::protocol::{InputEvent, KeyCode, Pong, ServerMessage};
use duangler::transport::Certificate;

fn hello(version: &str) -> ClientMessage {
    HelloMessage { client_version: version.to_string() }.into()
}

#[test]
fn server_accepts_client_of_same_version() {
    let cert = Certificate(vec![9, 9, 9]);
    let outcome = on_hello_message(hello("0.1.0"), "0.1.0", &cert).unwrap();
    assert!(outcome.proceed);
    match outcome.reply {
        HelloReply::Accepted(req) => {
            assert!(req.server_tls_cert_hash.eq(&Sha256::from_bytes(&[9, 9, 9])))
        }
        HelloReply::Rejected(e) => panic!("rejected {:?}", e),
    }
}

#[test]
fn server_rejects_client_of_other_version() {
    let cert = Certificate(vec![1]);
    let outcome = on_hello_message(hello("0.2.0"), "0.1.0", &cert).unwrap();
    assert!(!outcome.proceed);
    assert!(matches!(
        outcome.reply,
        HelloReply::Rejected(HelloReplyError::VersionMismatch)
    ));
}

#[test]
fn server_expects_hello_first_and_upgrade_reply_second() {
    let cert = Certificate(vec![1]);
    let hash = Sha256::from_bytes(b"client cert");
    let reply: ClientMessage = UpgradeTransportResponse { client_tls_cert_hash: hash }.into();
    assert_eq!(
        on_hello_message(reply.clone(), "0.1.0", &cert).err(),
        Some(SessionError::ExpectingHello)
    );
    assert!(on_upgrade_transport_reply(reply).unwrap().eq(&hash));
    assert_eq!(
        on_upgrade_transport_reply(hello("0.1.0")).err(),
        Some(SessionError::ExpectingUpgradeTransport)
    );
}

#[test]
fn server_session_states() {
    let e = InputEvent::KeyDown { key: KeyCode::B };
    assert!(!State::Handshaking.is_connected());
    assert!(State::Idle.is_connected());
    assert_eq!(on_idle(IdleInput::Event(Some(e))), Some(State::RelayingEvent { event: e }));
    assert_eq!(on_idle(IdleInput::Event(None)), None);
    assert_eq!(on_idle(IdleInput::Tick { closed: true }), None);
    assert_eq!(on_idle(IdleInput::Tick { closed: false }), Some(State::Idle));
    assert_eq!(after_relay(State::RelayingEvent { event: e }), State::Idle);
}

#[test]
fn server_routes_events_to_connected_session_only() {
    let e = InputEvent::KeyUp { key: KeyCode::C };
    assert_eq!(route_event(Some(e), Some(true)), EventRoute::Forward(e));
    assert_eq!(route_event(Some(e), Some(false)), EventRoute::Drop);
    assert_eq!(route_event(Some(e), None), EventRoute::Drop);
    assert_eq!(route_event(None, Some(true)), EventRoute::Stop);
    assert!(accept_incoming_connection(false));
    assert!(!accept_incoming_connection(true));
}

#[test]
fn client_handshake_outcomes() {
    let pinned = Certificate(b"server cert".to_vec());
    let hash = Sha256::from_bytes(b"server cert");
    let accepted: HandshakeMessage =
        HelloReply::Accepted(UpgradeTransportRequest { server_tls_cert_hash: hash }).into();
    assert!(on_hello_reply(accepted, &pinned).unwrap().server_tls_cert_hash.eq(&hash));
    let rejected: HandshakeMessage = HelloReply::Rejected(HelloReplyError::VersionMismatch).into();
    assert_eq!(
        on_hello_reply(rejected, &pinned).err(),
        Some(ClientSessionError::HandshakeFailed(HelloReplyError::VersionMismatch))
    );
    let event: HandshakeMessage =
        duangler::protocol::InputEvent::MouseMove { dx: 1, dy: 2 }.into();
    assert_eq!(on_hello_reply(event, &pinned).err(), Some(ClientSessionError::UnexpectedMessage));
    assert_eq!(after_handshake(), SessionState::Idle);
    assert_eq!(SessionState::default(), SessionState::Handshaking);
}

#[test]
fn client_refuses_a_hash_of_another_certificate() {
    let pinned = Certificate(b"server cert".to_vec());
    let other = Sha256::from_bytes(b"another cert");
    let accepted: HandshakeMessage =
        HelloReply::Accepted(UpgradeTransportRequest { server_tls_cert_hash: other }).into();
    assert_eq!(
        on_hello_reply(accepted, &pinned).err(),
        Some(ClientSessionError::ServerCertificateMismatch)
    );
}

#[test]
fn server_answer_is_accepted_by_a_client_pinning_its_certificate() {
    let cert = Certificate(vec![4, 5, 6]);
    let outcome = on_hello_message(hello("0.3.0"), "0.3.0", &cert).unwrap();
    let reply: HandshakeMessage = outcome.reply.into();
    assert!(on_hello_reply(reply, &cert).is_ok());
    let outcome = on_hello_message(hello("0.2.0"), "0.3.0", &cert).unwrap();
    let reply: HandshakeMessage = outcome.reply.into();
    assert_eq!(
        on_hello_reply(reply, &cert).err(),
        Some(ClientSessionError::HandshakeFailed(HelloReplyError::VersionMismatch))
    );
}

#[test]
fn client_idle_session() {
    let e = InputEvent::KeyDown { key: KeyCode::Z };
    assert_eq!(
        client_on_idle(ClientIdleInput::Message(ServerMessage::Event(e))),
        Ok(Some(SessionState::EventRelayed { event: e }))
    );
    assert_eq!(
        client_on_idle(ClientIdleInput::Message(ServerMessage::Pong(Pong { counter: 1 }))),
        Err(ClientSessionError::UnexpectedMessage)
    );
    assert_eq!(client_on_idle(ClientIdleInput::Tick { closed: true }), Ok(None));
    assert_eq!(
        client_on_idle(ClientIdleInput::Tick { closed: false }),
        Ok(Some(SessionState::Idle))
    );
}

#[test]
fn client_reconnects_after_delay_and_pins_last_certificate() {
    assert_eq!(reconnect_delay_secs(true), RECONNECT_DELAY_SECS);
    assert_eq!(reconnect_delay_secs(false), 0);
    let certs = vec![Certificate(vec![1]), Certificate(vec![2])];
    assert_eq!(pinned_server_cert(certs).unwrap().0, vec![2]);
    assert!(pinned_server_cert(vec![]).is_none());
}

#[test]
fn plain_protocol_handshake() {
    assert!(versions_match("1.2.3", "1.2.3"));
    assert!(!versions_match("1.2.3", "1.2.4"));
    assert!(!versions_match("1.2", "1.2.3"));
    let ok = hello_reply(&ClientHello { version: "1.0".to_string() }, "1.0");
    assert!(matches!(ok, ServerHello::Accepted));
    match hello_reply(&ClientHello { version: "0.9".to_string() }, "1.0") {
        ServerHello::Rejected(v) => assert_eq!(v, "1.0"),
        ServerHello::Accepted => panic!("accepted another version"),
    }
    assert!(check_hello_reply(InboxServerMessage::HelloReply(ServerHello::Accepted)).is_ok());
    assert!(matches!(
        check_hello_reply(InboxServerMessage::HelloReply(ServerHello::Rejected("x".to_string()))),
        Err(ClientError::HandshakeRejected(r)) if r == "x"
    ));
    let e = duangler::protocol::InputEvent::MouseScroll {};
    assert!(matches!(
        check_hello_reply(InboxServerMessage::Event(e)),
        Err(ClientError::ExpectingHelloReply)
    ));
    assert_eq!(expect_event(InboxServerMessage::Event(e)).unwrap(), e);
    assert!(matches!(
        expect_event(InboxServerMessage::HelloReply(ServerHello::Accepted)),
        Err(ClientError::ExpectingEvent)
    ));
}

#[test]
fn operator_answer_is_yes_only_for_y() {
    for (line, expected) in [
        ("y\n", true),
        ("Y\r\n", true),
        ("  y \t", true),
        ("\u{3000}y\u{2028}", true),
        ("n\n", false),
        ("yes\n", false),
        ("y y", false),
        ("", false),
        ("\n", false),
        ("x", false),
    ] {
        assert_eq!(operator_accepts(line), expected, "{:?}", line);
        let trimmed = line.trim();
        assert_eq!(trimmed == "y" || trimmed == "Y", expected, "{:?}", line);
    }
}
