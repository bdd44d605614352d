[package]
name = "dmbc"
version = "0.1.0"
edition = "2021"
publish = false

[dependencies]
sha2 = "*"
ed25519-dalek = "*"
serde = { version = "*", features = ["derive"] }
serde_json = "*"
