[package]
name = "ajour_core"
version = "0.1.0"
edition = "2021"
publish = false

[dependencies]
glob = "0.3"
serde = { version = "1.0", features = ["derive"] }
serde_yaml = "0.9"
log = "0.4"
