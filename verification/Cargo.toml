[package]
name = "camfeed"
version = "0.1.0"
edition = "2021"
publish = false

[dependencies]
tokio = { version = "*", features = ["full"] }
axum = "*"
serde = { version = "*", features = ["derive"] }
toml = "*"
nokhwa = { version = "*", features = ["input-native"] }
image = "*"
