[package]
name = "tackboardlib"
version = "0.1.0"
edition = "2021"
publish = false

[dependencies]
serde = { version = "1", features = ["derive"] }
serde_json = "1"
thiserror = "*"
tokio = { version = "1", features = ["rt-multi-thread", "macros", "net", "sync", "time"] }
tokio-util = { version = "0.7", features = ["codec"] }
tokio-serde = { version = "*", features = ["json"] }
futures = "0.3"
log = "0.4"
env_logger = "*"
once_cell = "1"
uuid = { version = "1", features = ["v4"] }
