[package]
name = "gramps_reader"
version = "0.1.0"
edition = "2021"
publish = false

[dependencies]
quick-xml = "0.37"
flate2 = "1"
csv = "1"
serde = { version = "1", features = ["derive"] }
serde_json = "1"
