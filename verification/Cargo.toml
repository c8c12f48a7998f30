[package]
name = "pg_tenant_bootstrap"
version = "0.1.0"
edition = "2021"
publish = false

[dependencies]
rand = "=0.8.8"
anyhow = "=1.0.104"
serde = { version = "=1.0.229", features = ["derive"] }
serde_json = "=1.0.154"
tokio = { version = "=1.54.1", features = ["rt", "macros"] }
tokio-postgres = "=0.7.18"
kube = { version = "=3.1.0", default-features = false, features = ["client"] }
k8s-openapi = { version = "=0.27.1", features = ["latest"] }
