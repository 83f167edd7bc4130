[package]
name = "node_bridge"
version = "0.1.0"
edition = "2021"
publish = false

[dependencies]
serde_json = "1"
sha3 = "0.10"
tokio = { version = "1", features = ["rt-multi-thread"] }
once_cell = "1"
parking_lot = "0.12"
