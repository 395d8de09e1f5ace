[package]
name = "p2p_chat"
version = "0.1.0"
edition = "2021"
publish = false

[dependencies]
futures = "0.3"
libp2p = { version = "0.54", features = ["cbor", "gossipsub", "kad", "macros", "mdns", "noise", "quic", "request-response", "tcp", "tokio", "yamux"] }
regex = "1"
serde = { version = "1", features = ["derive"] }
tokio = { version = "1", features = ["full"] }
