[package]
name = "librespot_connect"
version = "0.1.0"
edition = "2021"
publish = false

[dependencies]
tokio = { version = "1", features = ["macros", "rt", "sync", "signal"] }
futures-util = "0.3"
serde_json = "1"
thiserror = "2"
log = "0.4"
