[package]
name = "transfer_race"
version = "0.1.0"
edition = "2021"
publish = false

[dependencies]
async-trait = "*"
clap = { version = "*", features = ["derive"] }
futures = "*"
libp2p = { version = "*", features = ["tcp", "tokio", "noise", "yamux", "request-response", "ed25519"] }
tokio = { version = "*", features = ["macros", "rt-multi-thread"] }
