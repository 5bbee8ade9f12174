[package]
name = "gateway"
version = "0.1.0"
edition = "2021"
publish = false

[dependencies]
serde_json = "=1.0.154"
chrono = "=0.4.45"
tokio = { version = "=1.54.1", features = ["macros", "rt-multi-thread", "net"] }
axum = "=0.7.9"
lambda_runtime = "=0.13.0"
reqwest = { version = "=0.12.28", default-features = false, features = ["json", "rustls-tls"] }
