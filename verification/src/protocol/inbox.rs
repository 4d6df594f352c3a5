//! Messages of the plain (unencrypted) protocol: a hello exchange, then input
//! events.

use super::input_event::InputEvent;
use vstd::prelude::*;

verus! {

/// Server to client message.
#[derive(Clone, Debug)]
pub enum ServerMessage {
    Event(InputEvent),
    HelloReply(ServerHello),
}

impl From<InputEvent> for ServerMessage {
    fn from(x: InputEvent) -> (r: Self) {
        ServerMessage::Event(x)
    }
}

impl vstd::std_specs::convert::FromSpecImpl<InputEvent> for ServerMessage {
    open spec fn obeys_from_spec() -> bool {
        true
    }

    open spec fn from_spec(x: InputEvent) -> Self {
        ServerMessage::Event(x)
    }
}

/// Server's answer to a [`ClientHello`].
#[derive(Clone, Debug)]
pub enum ServerHello {
    Accepted,
    Rejected(String),
}

/// Client to server message.
#[derive(Clone, Debug)]
pub enum ClientMessage {
    Hello(ClientHello),
}

impl From<ClientHello> for ClientMessage {
    fn from(x: ClientHello) -> (r: Self) {
        ClientMessage::Hello(x)
    }
}

impl vstd::std_specs::convert::FromSpecImpl<ClientHello> for ClientMessage {
    open spec fn obeys_from_spec() -> bool {
        true
    }

    open spec fn from_spec(x: ClientHello) -> Self {
        ClientMessage::Hello(x)
    }
}

#[derive(Clone, Debug)]
pub struct ClientHello {
    /// Client app version.
    pub version: String,
}

/// Marker for the messages of this protocol.
pub trait Message {

}

impl Message for ServerMessage {

}

impl Message for ClientMessage {

}

/// Why a client gave up the handshake or the session.
#[derive(Clone, Debug)]
pub enum ClientError {
    /// The server rejected the hello message, for the given reason.
    HandshakeRejected(String),
    /// The server sent an event before replying to the hello message.
    ExpectingHelloReply,
    /// The server sent a hello reply where an event was expected.
    ExpectingEvent,
}

/// The outcome of the handshake for the server's first message.
pub open spec fn hello_outcome(msg: ServerMessage) -> Result<(), ClientError> {
    match msg {
        ServerMessage::HelloReply(ServerHello::Accepted) => Ok(()),
        ServerMessage::HelloReply(ServerHello::Rejected(reason)) => Err(
            ClientError::HandshakeRejected(reason),
        ),
        ServerMessage::Event(_) => Err(ClientError::ExpectingHelloReply),
    }
}

/// Checks the server's first message: the handshake succeeds on an accepted
/// hello reply.
pub fn check_hello_reply(msg: ServerMessage) -> (r: Result<(), ClientError>)
    ensures
        r == hello_outcome(msg),
{
    match msg {
        ServerMessage::HelloReply(reply) => match reply {
            ServerHello::Rejected(err) => Err(ClientError::HandshakeRejected(err)),
            ServerHello::Accepted => Ok(()),
        },
        ServerMessage::Event(_) => Err(ClientError::ExpectingHelloReply),
    }
}

/// Takes the event out of a message received after the handshake.
pub fn expect_event(msg: ServerMessage) -> (r: Result<InputEvent, ClientError>)
    ensures
        match msg {
            ServerMessage::Event(e) => r == Ok::<InputEvent, ClientError>(e),
            ServerMessage::HelloReply(_) => r == Err::<InputEvent, ClientError>(
                ClientError::ExpectingEvent,
            ),
        },
{
    match msg {
        ServerMessage::Event(event) => Ok(event),
        ServerMessage::HelloReply(_) => Err(ClientError::ExpectingEvent),
    }
}

/// The client and the server run the same version. There is no protocol
/// version: identical versions are required.
pub fn versions_match(client_version: &str, server_version: &str) -> (b: bool)
    ensures
        b == (client_version@ == server_version@),
{
    let c = client_version.as_bytes();
    let s = server_version.as_bytes();
    proof {
        vstd::utf8::encode_utf8_decode_utf8(client_version@);
        vstd::utf8::encode_utf8_decode_utf8(server_version@);
    }
    if c.len() != s.len() {
        return false;
    }
    let mut i: usize = 0;
    while i < c.len()
        invariant
            i <= c@.len(),
            c@.len() == s@.len(),
            c@ == vstd::utf8::encode_utf8(client_version@),
            s@ == vstd::utf8::encode_utf8(server_version@),
            forall|j: int| 0 <= j < i ==> c@[j] == s@[j],
        decreases c@.len() - i,
    {
        if c[i] != s[i] {
            assert(c@[i as int] != s@[i as int]);
            assert(c@ != s@);
            return false;
        }
        i = i + 1;
    }
    assert(c@ =~= s@);
    true
}

/// The server's answer to a hello message: accepted when the versions match.
pub fn hello_reply(hello: &ClientHello, server_version: &str) -> (r: ServerHello)
    ensures
        r is Accepted <==> hello.version@ == server_version@,
        r matches ServerHello::Rejected(reason) ==> reason@ == server_version@,
{
    if versions_match(hello.version.as_str(), server_version) {
        ServerHello::Accepted
    } else {
        ServerHello::Rejected(server_version.to_owned())
    }
}

} // verus!
