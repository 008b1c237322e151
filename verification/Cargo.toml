[package]
name = "reiter"
version = "0.1.0"
edition = "2021"
publish = false

[dependencies]
configparser = { version = "3", features = ["indexmap"] }
serde_json = "1"
serde = { version = "1", features = ["derive"] }
tokio = { version = "1", features = ["process", "io-util", "sync", "time", "macros", "rt"] }
notify = { version = "*", default-features = false }
thiserror = "*"
log = "0.4"
env_logger = "*"
tauri = { version = "2", default-features = false }
