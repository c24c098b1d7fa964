[package]
name = "port_forward_policy"
version = "0.1.0"
edition = "2021"
publish = false

[dependencies]
kubewarden-policy-sdk = { version = "=0.17.3", default-features = false }
lazy_static = "=1.5.1"
slog = "=2.8.2"
serde = { version = "=1.0.229", features = ["derive"] }
serde_json = "=1.0.151"
