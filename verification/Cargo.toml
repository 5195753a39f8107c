[package]
name = "signing_provider"
version = "0.1.0"
edition = "2021"
publish = false

[dependencies]
bytes = "=1.12.1"
ed25519-consensus = "=2.1.0"
informalsystems-malachitebft-core-types = "=0.5.0"
informalsystems-malachitebft-signing-ed25519 = { version = "=0.5.0", features = ["rand"] }
rand = "=0.8.8"
