[package]
name = "voxai"
version = "0.1.0"
edition = "2021"
publish = false

[dependencies]
anyhow = "*"
dirs = "*"
env_logger = "*"
futures-util = "*"
indicatif = "*"
log = "*"
nnnoiseless = "*"
reqwest = { version = "*", default-features = false, features = ["stream"] }
serde = { version = "*", features = ["derive"] }
serde_json = "*"
sha2 = "*"
sysinfo = "*"
tokio = { version = "*", features = ["full"] }
webrtc-vad = "*"
