[package]
name = "roadrunner"
version = "0.1.0"
edition = "2021"
publish = false

[dependencies]
chrono = "=0.4.45"
uuid = { version = "=1.27.0", features = ["v4"] }
serde = { version = "=1.0.229", features = ["derive"] }
serde_json = "=1.0.151"
serde_yaml = "=0.9.34"
tokio = { version = "=1.53.2", features = ["full"] }
tokio-stream = "=0.1.19"
futures = "=0.3.34"
futures-timer = "=3.0.4"
warp = { version = "=0.4.3", features = ["server", "websocket"] }
clap = { version = "=4.6.7", features = ["derive"] }
dotenv = "=0.15.0"
