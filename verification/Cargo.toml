[package]
name = "poem_openapi"
version = "0.1.0"
edition = "2021"
publish = false

[dependencies]
chrono = { version = "0.4", default-features = false, features = ["std"] }
mime = "0.3"
poem = { version = "~1.0", features = ["multipart"] }
serde_json = "1"
