[package]
name = "range_poll"
version = "0.1.0"
edition = "2021"
publish = false

[dependencies]
chrono = { version = "=0.4.45", default-features = false, features = ["clock"] }
serde_json = { version = "=1.0.154", features = ["preserve_order"] }
serialport = { version = "=4.10.1", default-features = false }
