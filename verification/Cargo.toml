[package]
name = "occult"
version = "0.1.0"
edition = "2021"
publish = false

[dependencies]
anyhow = "1"
dirs-next = "2"
log = { version = "0.4", features = ["serde"] }
parking_lot = "0.12"
scrap = "0.5"
serde = { version = "1", features = ["derive"] }
serde_json = "1"
tauri = { version = "2", default-features = false }
thiserror = "1"
tokio = { version = "1", features = ["sync"] }
toml = "0.8"
