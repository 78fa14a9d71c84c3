[package]
name = "planet"
version = "0.1.0"
edition = "2021"
publish = false

[dependencies]
rand = "0.8"
bevy = { version = "0.9", default-features = false }
crossbeam-channel = "0.5"
serde = { version = "1", features = ["derive"] }
bincode = "1.3"
futures-lite = "1"
