[package]
name = "diom"
version = "0.1.0"
edition = "2021"
publish = false

[dependencies]
serde = { version = "=1.0.229", features = ["derive"] }
serde_json = "=1.0.154"
sysinfo = "=0.40.1"
sha2 = "=0.10.9"
hex = "=0.4.3"
jsonwebtoken = { version = "10", default-features = false, features = ["use_pem", "rust_crypto"] }
toml = "*"
addr = "0.15"
url = "2"
regex = "1"
