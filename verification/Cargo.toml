[package]
name = "task-driver"
version = "0.1.0"
edition = "2021"
publish = false

[dependencies]
async-trait = "0.1"
serde_json = { version = "=1.0.154", features = ["preserve_order"] }
thiserror = "1"
tokio = { version = "1", features = ["macros"] }
tracing = "0.1"
uuid = "=1.29.0"
