[package]
name = "wharf"
version = "0.1.0"
edition = "2021"
publish = false

[dependencies]
base64 = "0.13"
serde_json = "1"
http = "0.2"
serde = { version = "1", features = ["derive"] }
hyper = { version = "0.14", features = ["client", "http1", "tcp"] }
