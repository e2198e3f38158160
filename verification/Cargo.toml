[package]
name = "ipgeolocation"
version = "1.0.0"
edition = "2021"
publish = false

[dependencies]
moka = { version = "*", features = ["sync"] }
axum = "*"
tokio = { version = "*", features = ["full"] }
serde = { version = "*", features = ["derive"] }
serde_json = "*"
prost = "*"
maxminddb = "*"
tzf-rs = "*"
chrono = "*"
chrono-tz = "*"
