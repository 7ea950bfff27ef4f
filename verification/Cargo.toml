[package]
name = "roboapp"
version = "0.1.0"
edition = "2021"
publish = false

[dependencies]
tokio = { version = "1", features = ["sync", "rt-multi-thread", "macros", "net", "time"] }
serde = { version = "1", features = ["derive"] }
serde_json = "1"
toml = "*"
dirs = "*"
clap = { version = "4", features = ["derive"] }
log = "0.4"
env_logger = "*"
futures-util = { version = "0.3", features = ["sink"] }
tokio-tungstenite = "*"
v4l = "*"
zenoh = { version = "1", default-features = false }
