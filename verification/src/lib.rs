//! Verified core of a software KVM switch: the input events and messages
//! exchanged between a server and a client, their wire framing, and the
//! decisions taken by the input controller and the protocol sessions.

pub mod server;
pub mod transport;
pub mod input_source;
pub mod client;
pub mod config;
pub mod protocol;
pub mod terong;
