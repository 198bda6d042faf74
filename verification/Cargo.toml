[package]
name = "webhook_relay"
version = "0.1.0"
edition = "2021"
publish = false

[dependencies]
hmac-sha256 = "*"
base64 = "0.13"
axum = "0.5"
hyper = "0.14"
tokio = { version = "1", features = ["fs", "io-util", "time", "macros", "rt-multi-thread"] }
tower = "0.4"
tower-http = { version = "0.3", features = ["trace"] }
serde = { version = "1", features = ["derive"] }
toml = "*"
clap = { version = "3", features = ["derive"] }
tracing = "*"
tracing-subscriber = "*"
async-trait = "*"
