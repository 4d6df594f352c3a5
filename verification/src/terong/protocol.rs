//! Messages exchanged between the client and the server.

pub mod message;

use crate::terong::input_event::InputEvent;
use vstd::prelude::*;

verus! {

/// Version of the protocol spoken by this build.
pub const PROTOCOL_VERSION: u8 = 0;

/// Server to client message.
#[derive(Clone, Copy, PartialEq, Eq, Debug, Structural)]
pub enum ServerMessage {
    InputEvent(InputEvent),
}

impl From<InputEvent> for ServerMessage {
    fn from(x: InputEvent) -> (r: Self) {
        ServerMessage::InputEvent(x)
    }
}

impl vstd::std_specs::convert::FromSpecImpl<InputEvent> for ServerMessage {
    open spec fn obeys_from_spec() -> bool {
        true
    }

    open spec fn from_spec(x: InputEvent) -> Self {
        ServerMessage::InputEvent(x)
    }
}

/// Client to server message.
#[derive(Clone, Debug)]
pub enum ClientMessage {
    Hello(Hello),
}

impl From<Hello> for ClientMessage {
    fn from(x: Hello) -> (r: Self) {
        ClientMessage::Hello(x)
    }
}

impl vstd::std_specs::convert::FromSpecImpl<Hello> for ClientMessage {
    open spec fn obeys_from_spec() -> bool {
        true
    }

    open spec fn from_spec(x: Hello) -> Self {
        ClientMessage::Hello(x)
    }
}

/// The client's first message.
#[derive(Clone, Debug)]
pub struct Hello {
    pub protocol_version: u8,
    pub client_name: String,
}

} // verus!
