//! Messages exchanged between the client and the server transports.

pub mod heartbeat;
pub mod input_event;

pub use self::input_event::{
    InputEvent, KeyCode, MouseButton, MouseScrollDirection, KEY_CODE_COUNT, MOUSE_BUTTON_COUNT,
};
use vstd::prelude::*;

verus! {

/// Client to server message.
#[derive(Clone, Copy, PartialEq, Eq, Debug, Structural)]
pub enum ClientMessage {
    Ping(Ping),
}

impl From<Ping> for ClientMessage {
    fn from(x: Ping) -> (r: Self) {
        ClientMessage::Ping(x)
    }
}

impl vstd::std_specs::convert::FromSpecImpl<Ping> for ClientMessage {
    open spec fn obeys_from_spec() -> bool {
        true
    }

    open spec fn from_spec(x: Ping) -> Self {
        ClientMessage::Ping(x)
    }
}

/// Server to client message.
#[derive(Clone, Copy, PartialEq, Eq, Debug, Structural)]
pub enum ServerMessage {
    /// Propagated event from the server host machine.
    Event(InputEvent),
    Pong(Pong),
}

impl From<InputEvent> for ServerMessage {
    fn from(x: InputEvent) -> (r: Self) {
        ServerMessage::Event(x)
    }
}

impl vstd::std_specs::convert::FromSpecImpl<InputEvent> for ServerMessage {
    open spec fn obeys_from_spec() -> bool {
        true
    }

    open spec fn from_spec(x: InputEvent) -> Self {
        ServerMessage::Event(x)
    }
}

impl From<Pong> for ServerMessage {
    fn from(x: Pong) -> (r: Self) {
        ServerMessage::Pong(x)
    }
}

impl vstd::std_specs::convert::FromSpecImpl<Pong> for ServerMessage {
    open spec fn obeys_from_spec() -> bool {
        true
    }

    open spec fn from_spec(x: Pong) -> Self {
        ServerMessage::Pong(x)
    }
}

/// Liveness probe sent by the client.
#[derive(Clone, Copy, PartialEq, Eq, Debug, Structural)]
pub struct Ping {
    pub counter: u16,
}

/// Reply to a [`Ping`].
#[derive(Clone, Copy, PartialEq, Eq, Debug, Structural)]
pub struct Pong {
    pub counter: u16,
}

} // verus!
