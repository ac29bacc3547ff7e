[package]
name = "arm_control"
version = "0.1.0"
edition = "2021"
publish = false

[dependencies]
tauri = { version = "2", default-features = false }
tokio = { version = "1", default-features = false, features = ["sync"] }
tracing = { version = "0.1", default-features = false, features = ["std"] }
uuid = { version = "1", default-features = false, features = ["std"] }
