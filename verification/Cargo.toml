[package]
name = "booksapi"
version = "0.1.0"
edition = "2021"
publish = false

[dependencies]
axum = "=0.8.9"
http = "=1.5.0"
reflectapi = { version = "=0.22.0", features = ["builder", "axum", "codegen", "uuid"] }
serde = { version = "=1.0.229", features = ["derive"] }
serde_json = "=1.0.154"
tokio = { version = "=1.54.1", features = ["full"] }
uuid = { version = "=1.29.0", features = ["v4", "serde"] }
