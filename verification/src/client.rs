pub mod input_consumer;
pub mod input_sink;
pub mod transport_client;
