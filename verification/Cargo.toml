[package]
name = "fingerprint_server"
version = "0.1.0"
edition = "2021"
publish = false

[dependencies]
axum = "*"
rustfft = "*"
serde = { version = "*", features = ["derive"] }
serde_json = "*"
symphonia = { version = "*", features = ["mp3", "aac", "isomp4"] }
thiserror = "*"
tokio = { version = "*", features = ["full"] }
tower-http = { version = "*", features = ["cors", "trace"] }
tracing = "*"
tracing-subscriber = { version = "*", features = ["env-filter"] }
