pub mod config;
pub mod input_listener;
pub mod transport_server;
