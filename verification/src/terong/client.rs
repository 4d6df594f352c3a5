pub mod transport_client;
