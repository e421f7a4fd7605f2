[package]
name = "container_acquire"
version = "0.1.0"
edition = "2021"
publish = false

[dependencies]
base64 = "0.22"
bollard = "*"
futures-util = "0.3"
nvml-wrapper = "*"
serde = { version = "1", features = ["derive"] }
sysinfo = "*"
tokio = { version = "1", features = ["macros", "rt-multi-thread"] }
