[package]
name = "quic_endpoint"
version = "0.1.0"
edition = "2021"
publish = false

[dependencies]
quinn-proto = "0.8"
bytes = "1"

[dev-dependencies]
rustls = "0.20"
rcgen = "0.9"
