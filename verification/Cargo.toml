[package]
name = "nautilus"
version = "0.1.0"
edition = "2021"
publish = false

[dependencies]
jsonwebtoken = "9"
serde_json = "1"
serde = { version = "1", features = ["derive"] }
rand = "0.8"
uuid = { version = "1", features = ["v4"] }
ureq = { version = "2", default-features = false }
