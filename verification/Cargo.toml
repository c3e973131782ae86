[package]
name = "quic_h3"
version = "0.1.0"
edition = "2021"
publish = false

[dependencies]
bytes = "0.5"
futures = "0.3"
http = "0.2"
ring = "0.16"
rustls = { version = "0.17", features = ["quic"] }
tracing = "0.1"
webpki = "0.21"
