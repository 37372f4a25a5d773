[package]
name = "blea"
version = "0.1.0"
edition = "2021"
publish = false

[dependencies]
hex = "0.4"
byteorder = "1"
serde = { version = "1", features = ["derive"] }
serde_json = "1"
log = "0.4"
tokio = { version = "1", features = ["macros", "rt-multi-thread", "time"] }
futures = "0.3"
rumqttc = "*"
btleplug = "*"
uuid = "*"
dotenv = "*"
pretty_env_logger = "*"
