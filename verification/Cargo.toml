[package]
name = "brawler_profiles"
version = "0.1.0"
edition = "2021"
publish = false

[dependencies]
base64 = "*"
axum = "*"
axum-extra = { version = "*", features = ["multipart"] }
serde = { version = "*", features = ["derive"] }
