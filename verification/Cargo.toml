[package]
name = "reset_tokens"
version = "0.1.0"
edition = "2021"
publish = false

[dependencies]
actix-web = "4"
rand = "0.8"
serde = { version = "1", features = ["derive"] }
uuid = { version = "1", features = ["v4"] }
