[package]
name = "privacy_mesh"
version = "0.1.0"
edition = "2021"
publish = false

[dependencies]
chrono = "0.4"
dotenv = "0.15"
futures = "0.3"
hex = "0.4"
libp2p = { version = "0.54", features = ["ed25519", "gossipsub", "macros", "mdns", "noise", "tcp", "tokio", "yamux"] }
reqwest = { version = "0.12", default-features = false, features = ["json"] }
serde = { version = "1", features = ["derive"] }
serde_json = { version = "1", features = ["preserve_order"] }
tokio = { version = "1", features = ["full"] }
