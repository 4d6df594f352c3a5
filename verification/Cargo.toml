[package]
name = "duangler"
version = "0.1.0"
edition = "2021"
publish = false

[dependencies]
anyhow = "1"
bincode = "1.3"
bytes = "1"
crossbeam = "0.8"
evdev-rs = "0.6"
futures = "0.3"
hex = "0.4"
log = "0.4"
nix = { version = "0.26", default-features = false, features = ["fs"] }
ring = "0.16"
rustls = { version = "0.20", features = ["dangerous_configuration"] }
serde = { version = "1", features = ["derive"] }
tokio = { version = "1", features = ["sync", "rt", "rt-multi-thread", "macros", "net", "io-util", "time", "fs"] }
tokio-rustls = "0.23"
toml = "0.5"
tracing = "0.1"
tracing-subscriber = { version = "0.3", features = ["env-filter"] }
