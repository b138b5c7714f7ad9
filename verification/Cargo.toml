[package]
name = "typeless"
version = "0.1.0"
edition = "2021"
publish = false

[dependencies]
serde = { version = "1", features = ["derive"] }
serde_json = "1"
anyhow = "1"
log = "0.4"
env_logger = { version = "0.11", default-features = false }
dirs = "5"
async-trait = "0.1"
tokio = { version = "1", features = ["rt-multi-thread", "macros", "time"] }
futures-util = { version = "0.3", default-features = false, features = ["sink"] }
hound = "3"
reqwest = { version = "0.12", default-features = false, features = ["json", "multipart"] }
tokio-tungstenite = { version = "0.24", default-features = false, features = ["connect", "handshake"] }
