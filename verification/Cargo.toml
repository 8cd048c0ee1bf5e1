[package]
name = "letmego_core"
version = "0.1.0"
edition = "2021"
publish = false

[dependencies]
base64ct = { version = "=1.8.3", features = ["alloc"] }
ed25519-dalek = { version = "=2.2.0", features = ["digest"] }
rand = "=0.8.8"
serde = { version = "1", features = ["derive"] }
serde_json = "1"
thiserror = "1"
toml = "0.8"
