[package]
name = "symmetrix_core"
version = "0.1.0"
edition = "2021"
publish = false

[dependencies]
sha2 = "0.10"
hex = "0.4"
rcgen = "0.11"
uuid = { version = "1", features = ["v4"] }
chrono = "0.4"
