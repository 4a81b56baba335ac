[package]
name = "iot_mock"
version = "0.1.0"
edition = "2021"
publish = false

[dependencies]
rand = "0.9"
chrono = "0.4"
log = "0.4"
env_logger = "*"
rumqttc = "*"
serde = { version = "1", features = ["derive"] }
serde_json = "1"
tokio = { version = "1", features = ["macros", "rt-multi-thread", "time"] }
