//! Decisions of the client transport: the handshake with the server, the
//! states of a session, and the reconnection after a session ends.

use crate::protocol::{sha256, HelloReply, HelloReplyError, Sha256, UpgradeTransportRequest};
use crate::server::transport_server::{answers_hello, HelloOutcome};
use crate::transport::Certificate;
use crate::transport::protocol::{InputEvent, ServerMessage};
use vstd::prelude::*;

verus! {

/// State of a session with the server.
#[derive(Clone, Copy, PartialEq, Eq, Debug, Structural)]
pub enum SessionState {
    /// Sending the hello message and upgrading the transport to TLS.
    Handshaking,
    /// Waiting for a message from the server.
    Idle,
    /// An input event was received and is handed to the input sink.
    EventRelayed { event: InputEvent },
}

impl Default for SessionState {
    fn default() -> (r: Self)
        ensures
            r == SessionState::Handshaking,
    {
        SessionState::Handshaking
    }
}

/// Why a session ends in failure.
#[derive(Clone, Copy, PartialEq, Eq, Debug, Structural)]
pub enum SessionError {
    /// The server refused the hello message.
    HandshakeFailed(HelloReplyError),
    /// The server sent a message that does not fit the state of the session.
    UnexpectedMessage,
    /// The server announced the hash of another certificate than the one
    /// the client pins.
    ServerCertificateMismatch,
}

/// What the server's answer to the hello message means for a client that
/// pins the server certificate `server_cert`: an accepted hello must carry
/// the SHA-256 hash of that certificate before the transport is upgraded.
pub open spec fn hello_reply_outcome(
    msg: crate::protocol::ServerMessage,
    server_cert: Seq<u8>,
) -> Result<UpgradeTransportRequest, SessionError> {
    match msg {
        crate::protocol::ServerMessage::HelloReply(HelloReply::Accepted(req)) => {
            if req.server_tls_cert_hash.0@ == sha256(server_cert) {
                Ok(req)
            } else {
                Err(SessionError::ServerCertificateMismatch)
            }
        },
        crate::protocol::ServerMessage::HelloReply(HelloReply::Rejected(err)) => Err(
            SessionError::HandshakeFailed(err),
        ),
        crate::protocol::ServerMessage::Event(_) => Err(SessionError::UnexpectedMessage),
    }
}

/// Handles the server's answer to the hello message: an accepted hello
/// carrying the hash of the pinned server certificate yields the request to
/// upgrade the transport; a refusal, another hash, or any other message
/// fails the session.
pub fn on_hello_reply(msg: crate::protocol::ServerMessage, server_cert: &Certificate) -> (r: Result<
    UpgradeTransportRequest,
    SessionError,
>)
    ensures
        r == hello_reply_outcome(msg, server_cert.0@),
{
    match msg {
        crate::protocol::ServerMessage::HelloReply(reply) => match reply {
            HelloReply::Accepted(req) => {
                let expected = Sha256::from_bytes(server_cert.0.as_slice());
                if req.server_tls_cert_hash.eq(&expected) {
                    Ok(req)
                } else {
                    Err(SessionError::ServerCertificateMismatch)
                }
            },
            HelloReply::Rejected(err) => Err(SessionError::HandshakeFailed(err)),
        },
        crate::protocol::ServerMessage::Event(_) => Err(SessionError::UnexpectedMessage),
    }
}

/// Client and server agree on the handshake: a client that pins the
/// server's own certificate goes on to the TLS upgrade exactly when the
/// server does, which is when both run the same version; a client of another
/// version fails with the server's refusal, and one that pins a certificate
/// of another hash refuses to upgrade.
pub proof fn lemma_handshake_agreement(
    o: HelloOutcome,
    client_version: Seq<char>,
    server_version: Seq<char>,
    cert: Seq<u8>,
    pinned: Seq<u8>,
)
    requires
        answers_hello(o, client_version, server_version, cert),
    ensures
        pinned == cert ==> (hello_reply_outcome(
            crate::protocol::ServerMessage::HelloReply(o.reply),
            pinned,
        ) is Ok <==> o.proceed),
        o.proceed <==> client_version == server_version,
        client_version != server_version ==> hello_reply_outcome(
            crate::protocol::ServerMessage::HelloReply(o.reply),
            pinned,
        ) == Err::<UpgradeTransportRequest, SessionError>(
            SessionError::HandshakeFailed(HelloReplyError::VersionMismatch),
        ),
        client_version == server_version && sha256(pinned) != sha256(cert) ==> hello_reply_outcome(
            crate::protocol::ServerMessage::HelloReply(o.reply),
            pinned,
        ) == Err::<UpgradeTransportRequest, SessionError>(SessionError::ServerCertificateMismatch),
{
}

/// The state once the transport is upgraded.
pub fn after_handshake() -> (r: SessionState)
    ensures
        r == SessionState::Idle,
{
    SessionState::Idle
}

/// What an idle session observed.
#[derive(Clone, Copy, PartialEq, Eq, Debug, Structural)]
pub enum IdleInput {
    /// A message from the server.
    Message(ServerMessage),
    /// The periodic check of the connection, and whether it is closed.
    Tick { closed: bool },
}

/// The state after an idle session observed `input`: `Ok(None)` ends the
/// session normally, an error ends it in failure.
pub open spec fn idle_next(input: IdleInput) -> Result<Option<SessionState>, SessionError> {
    match input {
        IdleInput::Message(ServerMessage::Event(event)) => Ok(
            Some(SessionState::EventRelayed { event }),
        ),
        IdleInput::Message(ServerMessage::Pong(_)) => Err(SessionError::UnexpectedMessage),
        IdleInput::Tick { closed } => if closed {
            Ok(None)
        } else {
            Ok(Some(SessionState::Idle))
        },
    }
}

pub fn on_idle(input: IdleInput) -> (r: Result<Option<SessionState>, SessionError>)
    ensures
        r == idle_next(input),
{
    match input {
        IdleInput::Message(msg) => match msg {
            ServerMessage::Event(event) => Ok(Some(SessionState::EventRelayed { event })),
            ServerMessage::Pong(_) => Err(SessionError::UnexpectedMessage),
        },
        IdleInput::Tick { closed } => {
            if closed {
                Ok(None)
            } else {
                Ok(Some(SessionState::Idle))
            }
        },
    }
}

/// The state after the relayed event was handed to the input sink.
pub fn after_relay(state: SessionState) -> (r: SessionState)
    requires
        state is EventRelayed,
    ensures
        r == SessionState::Idle,
{
    SessionState::Idle
}

/// Seconds to wait before connecting again after a failed session.
pub const RECONNECT_DELAY_SECS: u64 = 5;

/// Delay before the next connection: a session that failed is retried after
/// [`RECONNECT_DELAY_SECS`], one that ended normally at once.
pub fn reconnect_delay_secs(session_failed: bool) -> (r: u64)
    ensures
        r == (if session_failed {
            RECONNECT_DELAY_SECS
        } else {
            0
        }),
{
    if session_failed {
        RECONNECT_DELAY_SECS
    } else {
        0
    }
}

/// The certificate the server must present: the last of the configured
/// server certificates.
pub fn pinned_server_cert(certs: Vec<Certificate>) -> (r: Option<Certificate>)
    ensures
        r == (if certs@.len() == 0 {
            None
        } else {
            Some(certs@.last())
        }),
{
    let mut certs = certs;
    certs.pop()
}

} // verus!
