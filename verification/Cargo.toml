[package]
name = "endpoint"
version = "0.1.0"
edition = "2021"
publish = false

[dependencies]
hyper = { version = "1", default-features = false }
rustls-pki-types = "1"
serde = { version = "1", features = ["derive"] }
