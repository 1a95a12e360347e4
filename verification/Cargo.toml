[package]
name = "sams"
version = "0.1.0"
edition = "2021"
publish = false

[dependencies]
chrono = "0.4"
hmac = "0.12"
sha2 = "0.10"
serde = { version = "1", features = ["derive"] }
zenoh = { version = "1", default-features = false }
