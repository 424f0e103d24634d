[package]
name = "camera_gateway"
version = "0.1.0"
edition = "2021"
publish = false

[dependencies]
async-std = "1"
base64 = "0.21"
env_logger = "0.11"
futures = "0.3"
log = "0.4"
paho-mqtt = "0.12"
rand = "0.8"
rumqttc = "0.24"
serde = { version = "1", features = ["derive"] }
serde_json = "1"
tokio = { version = "1", features = ["full"] }
