[package]
name = "function_url_proxy"
version = "0.1.0"
edition = "2021"
publish = false

[dependencies]
axum = "*"
base64 = "*"
chrono = "*"
reqwest = { version = "*", default-features = false }
serde = { version = "*", features = ["derive"] }
serde_json = "*"
tokio = { version = "*", features = ["full"] }
tower = "*"
tower-http = { version = "*", features = ["trace"] }
tracing = "*"
tracing-subscriber = { version = "*", features = ["env-filter"] }
url = "*"
