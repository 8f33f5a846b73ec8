[package]
name = "chappaai"
version = "0.1.0"
edition = "2021"
publish = false

[dependencies]
oauth2 = { version = "=4.4.2", default-features = false }
chrono = "=0.4.45"
kube = { version = "=3.1.0", features = ["runtime", "derive", "client"] }
k8s-openapi = { version = "=0.27.1", features = ["latest"] }
axum = "=0.8.9"
tokio = { version = "1", features = ["macros", "rt-multi-thread"] }
futures = "0.3"
serde = { version = "1", features = ["derive"] }
serde_json = "1"
reqwest = { version = "0.11", default-features = false, features = ["rustls-tls"] }
schemars = "*"
tracing = "0.1"
tracing-subscriber = { version = "*", features = ["env-filter", "json"] }
