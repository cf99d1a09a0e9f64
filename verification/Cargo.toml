[package]
name = "recorder_core"
version = "0.1.0"
edition = "2021"
publish = false

[dependencies]
image = { version = "*", default-features = false, features = ["png"] }
crossbeam-channel = "*"
parking_lot = "*"
chrono = "*"
dirs = "*"
base64 = "*"
serde = { version = "*", features = ["derive"] }
thiserror = "*"
