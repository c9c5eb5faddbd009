[package]
name = "permission_gateway"
version = "0.1.0"
edition = "2021"
publish = false

[dependencies]
serde_json = "1"
rustls-pemfile = "1"
serde = { version = "1", features = ["derive"] }
anyhow = "1"
thiserror = "1"
tokio = { version = "1", features = ["macros", "rt-multi-thread", "signal", "fs", "sync", "net", "time"] }
tokio-rustls = "0.24"
axum = "0.6"
axum-server = { version = "0.5", features = ["tls-rustls"] }
hyper = { version = "0.14", features = ["full"] }
tower-http = { version = "0.4", features = ["request-id"] }
tracing = "0.1"
tracing-subscriber = { version = "0.3", features = ["env-filter"] }
figment = { version = "0.10", features = ["toml"] }
ory-kratos-client = "*"
