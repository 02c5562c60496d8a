[package]
name = "mrml"
version = "0.1.0"
edition = "2021"
publish = false

[dependencies]
indexmap = { version = "2", features = ["serde"] }
rustc-hash = "1"
serde = { version = "1", features = ["derive"] }
rand = "0.8"
