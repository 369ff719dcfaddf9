[package]
name = "health_client"
version = "0.1.0"
edition = "2021"
publish = false

[dependencies]
serde = { version = "1", features = ["derive"] }
serde_derive = "1"
lazy_static = "1"
async-std = "1"
surf = { version = "2", default-features = false, features = ["h1-client-rustls"] }
