[package]
name = "brood_flow"
version = "0.1.0"
edition = "2021"
publish = false

[dependencies]
btleplug = "*"
chrono = "*"
config = "*"
env_logger = "*"
futures = "*"
json = "*"
log = "*"
rumqttc = "*"
serde = { version = "*", features = ["derive"] }
tokio = { version = "*", features = ["macros", "rt-multi-thread"] }
