[package]
name = "girl-agent"
version = "0.1.0"
edition = "2021"
publish = false

[dependencies]
anyhow = "1"
async-channel = "2"
axum = { version = "0.7", features = ["ws"] }
chrono = "0.4"
iced = { version = "0.13", default-features = false, features = ["tokio", "tiny-skia"] }
open = "5"
serde = { version = "1", features = ["derive"] }
serde_json = "1"
tokio = { version = "1", features = ["full"] }
tracing = "0.1"
tracing-subscriber = { version = "0.3", features = ["env-filter"] }
which = "6"
