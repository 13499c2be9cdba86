[package]
name = "glass_core"
version = "0.1.0"
edition = "2021"
publish = false

[dependencies]
anyhow = "1"
cef = "*"
log = "0.4"
parking_lot = "0.12"
serde = { version = "1", features = ["derive"] }
serde_json = "1"
