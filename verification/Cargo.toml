[package]
name = "icpc_live_infra_rs"
version = "0.1.0"
edition = "2021"
publish = false

[dependencies]
anyhow = "1"
async-trait = "0.1"
chrono = "0.4"
futures-util = { version = "0.3", features = ["sink"] }
reqwest = { version = "0.12", default-features = false }
russh = "0.45"
russh-sftp = "2"
serde = { version = "1", features = ["derive"] }
serde_json = "1"
tokio = { version = "1", features = ["full"] }
tokio-tungstenite = "0.21"
toml = "0.8"
