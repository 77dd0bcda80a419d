[package]
name = "sshx-server"
version = "0.1.0"
edition = "2021"
publish = false

[dependencies]
anyhow = "1"
axum = "0.6"
http = "0.2"
hyper = { version = "0.14", features = ["full"] }
tokio = { version = "1", features = ["macros", "net", "rt", "sync"] }
tonic = "0.9"
tonic-reflection = "0.9"
tower = { version = "0.4", features = ["steer", "util"] }
tower-http = { version = "0.4", features = ["redirect", "trace"] }
tracing = "0.1"
