[package]
name = "hosting_company"
version = "0.1.0"
edition = "2021"
publish = false

[dependencies]
axum = { version = "=0.6.20", features = ["headers"] }
rand = "=0.8.8"
rsa = "=0.9.10"
serde = { version = "=1.0.229", features = ["derive"] }
tokio = { version = "=1.53.2", features = ["macros", "rt-multi-thread"] }
url = "=2.5.8"
