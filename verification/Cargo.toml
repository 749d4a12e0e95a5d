[package]
name = "passport_login"
version = "0.1.0"
edition = "2021"
publish = false

[dependencies]
rsa = "0.9"
rand = "0.8"
base64 = "0.21"
serde = { version = "1", features = ["derive"] }
serde_json = "1"
tokio = { version = "1", features = ["rt-multi-thread", "macros", "sync"] }
