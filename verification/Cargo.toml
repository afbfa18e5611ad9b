[package]
name = "pants_store"
version = "0.1.0"
edition = "2021"
publish = false

[dependencies]
pants-gen = "=0.3.0"
secrecy = "=0.8.0"
serde = { version = "=1.0.229", features = ["derive"] }
async-std = "=1.13.2"
iced = { version = "0.12", default-features = false }
iced_aw = { version = "0.9", default-features = false, features = ["menu", "modal"] }
iced_futures = "0.12"
