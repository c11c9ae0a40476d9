[package]
name = "e2_image_server"
version = "0.2.0"
edition = "2021"
publish = false

[dependencies]
axum = { version = "=0.6.20", features = ["macros"] }
bytes = "=1.12.1"
clap = { version = "=3.2.25", features = ["derive"] }
env_logger = "=0.10.2"
futures = "=0.3.34"
image = "=0.24.9"
log = "=0.4.34"
percent-encoding = "=2.3.2"
reqwest = { version = "=0.11.27", features = ["stream"] }
serde = { version = "=1.0.229", features = ["derive"] }
thiserror = "=1.0.69"
tokio = { version = "=1.54.1", features = ["full"] }
