[package]
name = "zq_hid"
version = "0.1.0"
edition = "2021"
publish = false

[dependencies]
hidapi = "*"
serde = { version = "*", features = ["derive"] }
