[package]
name = "cam_console"
version = "0.1.0"
edition = "2021"
publish = false

[dependencies]
axum = "0.6"
tokio = { version = "1", features = ["full"] }
tower-http = { version = "0.4", features = ["fs"] }
serde = { version = "1", features = ["derive"] }
serde_json = "1"
