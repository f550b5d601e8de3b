[package]
name = "voxta"
version = "0.2.0"
edition = "2021"
publish = false

[dependencies]
uuid = { version = "1", features = ["v4"] }
sha1 = "0.10"
sha2 = "0.10"
arboard = { version = "3", default-features = false }
serde = { version = "1", features = ["derive"] }
serde_json = "1"
thiserror = "1"
tokio = { version = "1", features = ["rt", "time"] }
reqwest = { version = "0.12", default-features = false, features = ["stream"] }
futures-util = "0.3"
parking_lot = "0.12"
dirs-next = "2"
async-trait = "0.1"
