//! A variant of the switch in which the server watches the mouse for a bump
//! against the left edge of the screen, and the client keeps its session
//! alive with pings.

pub mod client;
pub mod input_event;
pub mod protocol;
pub mod server;
