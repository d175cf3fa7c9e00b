[package]
name = "session_server"
version = "0.1.0"
edition = "2021"
publish = false

[dependencies]
serde = { version = "*", features = ["derive"] }
serde_json = "=1.0.151"
uuid = { version = "=1.27.0", features = ["v4"] }
tokio = { version = "*", features = ["rt-multi-thread", "macros", "sync", "signal", "time", "net"] }
axum = "*"
tower = { version = "*", features = ["timeout", "limit", "load-shed", "util"] }
tower-http = { version = "*", features = ["trace"] }
chrono = { version = "*", default-features = false, features = ["clock"] }
tracing = "*"
tracing-subscriber = "*"
