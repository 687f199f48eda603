[package]
name = "search"
version = "0.1.0"
edition = "2021"
publish = false

[dependencies]
jsonwebtoken = { version = "=11.1.0", features = ["rust_crypto"] }
serde_json = "=1.0.151"
serde = { version = "=1.0.229", features = ["derive"] }
axum = "=0.8.9"
tokio = { version = "=1.53.2", features = ["macros", "rt-multi-thread"] }
mongodb = "=3.9.1"
futures = "=0.3.34"
