[package]
name = "request_validation"
version = "0.1.0"
edition = "2021"
publish = false

[dependencies]
actix-web = "4"
serde = { version = "1", features = ["derive"] }
futures-core = "0.3"
validator = { version = "0.18", features = ["derive"] }
