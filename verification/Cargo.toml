[package]
name = "spotiamp"
version = "0.1.0"
edition = "2021"
publish = false

[dependencies]
oauth2 = "5"
url = "2"
serde = { version = "1", features = ["derive"] }
serde_json = "1"
serde_yaml = "0.9"
directories = "*"
log = "0.4"
env_logger = "*"
thiserror = "*"
tokio = { version = "1", features = ["rt-multi-thread", "net", "sync", "macros"] }
axum = "*"
