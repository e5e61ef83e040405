[package]
name = "sharp"
version = "0.1.0"
edition = "2021"
publish = false

[dependencies]
argon2 = "*"
base64 = "*"
rand = "*"
tokio = { version = "*", features = ["full"] }
hyper = { version = "*", features = ["full"] }
hyper-util = { version = "*", features = ["full"] }
http-body-util = "*"
bytes = "*"
serde = { version = "*", features = ["derive"] }
serde_urlencoded = "*"
toml = "*"
