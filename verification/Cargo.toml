[package]
name = "sremp"
version = "0.1.0"
edition = "2021"
publish = false

[dependencies]
async-channel = "2"
chrono = { version = "0.4", features = ["serde"] }
ed25519-dalek = { version = "2", features = ["rand_core", "serde"] }
env_logger = "*"
log = "0.4"
rand = "0.8"
rmp-serde = "1"
serde = { version = "1", features = ["derive"] }
snow = "*"
thiserror = "*"
tokio = { version = "1", features = ["full"] }
x25519-dalek = { version = "2", features = ["static_secrets", "serde"] }
