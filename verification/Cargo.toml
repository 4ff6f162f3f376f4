[package]
name = "sensor_bridge"
version = "0.1.0"
edition = "2021"
publish = false

[dependencies]
btsensor = "*"
ruuvi-sensor-protocol = "*"
uuid = "*"
btleplug = "*"
tokio = { version = "*", features = ["macros", "rt-multi-thread"] }
rumqttc = "*"
serde = { version = "*", features = ["derive"] }
serde_json = "*"
clap = { version = "*", features = ["derive"] }
futures-util = "*"
async-stream = "*"
eyre = "*"
