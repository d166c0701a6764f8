[package]
name = "gateway_edge"
version = "0.1.0"
edition = "2021"
publish = false

[dependencies]
uuid = { version = "1", features = ["v4"] }
subtle = "2"
http = "1"
serde = { version = "1", features = ["derive"] }
serde_json = "1"
time = "0.3"
tokio = { version = "1", features = ["time", "sync", "rt", "macros"] }
tokio-util = "0.7"
bytes = "1"
async-trait = "0.1"
thiserror = "2"
reqwest = { version = "0.12", default-features = false }
