[package]
name = "rust_mcp_sdk"
version = "0.1.0"
edition = "2021"
publish = false

[dependencies]
serde = { version = "1", features = ["derive"] }
serde_json = { version = "1", features = ["preserve_order"] }
base64 = "0.22"
tokio = { version = "1", features = ["full"] }
tokio-stream = "0.1"
axum = "0.7"
dashmap = "6"
futures = "0.3"
uuid = { version = "1", features = ["v4"] }
bytes = "1"
thiserror = "1"
anyhow = "1"
