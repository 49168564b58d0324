[package]
name = "kube_gateway"
version = "0.1.0"
edition = "2021"
publish = false

[dependencies]
axum = "0.6"
env_logger = "0.10"
futures = "0.3"
handlebars = "4"
k8s-openapi = { version = "0.20", features = ["v1_26"] }
kube = { version = "0.87", default-features = false, features = ["client", "rustls-tls", "ws"] }
log = "0.4"
rust-embed = "8"
serde = { version = "1", features = ["derive"] }
serde_json = "1"
serde_yaml = "0.9"
tokio = { version = "1", features = ["full"] }
tokio-util = { version = "0.7", features = ["io"] }
