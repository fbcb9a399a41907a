[package]
name = "binancex"
version = "0.1.0"
edition = "2021"
publish = false

[dependencies]
chrono = { version = "0.4", default-features = false, features = ["clock"] }
hex = "0.4"
http = "1"
itoa = "1"
reqwest = { version = "0.12", default-features = false, features = ["json", "rustls-tls"] }
ring = "0.17"
rust_decimal = "1"
serde = { version = "1", features = ["derive"] }
serde_json = "1"
serde_qs = "*"
serde_repr = "0.1"
