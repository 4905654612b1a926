[package]
name = "reedhold_host"
version = "0.1.0"
edition = "2021"
publish = false

[dependencies]
serde = { version = "1", features = ["derive"] }
blazingly-json = "=0.1.9"
tiny_http = "0.12"
