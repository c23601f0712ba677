[package]
name = "biologischer_log"
version = "0.1.0"
edition = "2021"
publish = false

[dependencies]
chrono = { version = "0.4", default-features = false, features = ["clock", "std"] }
colored = "3"
log = { version = "0.4", features = ["std"] }
