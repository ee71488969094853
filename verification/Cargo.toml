[package]
name = "mqtt_bench"
version = "0.1.0"
edition = "2021"
publish = false

[dependencies]
anyhow = "1"
byteorder = "1"
bytes = "1"
clap = { version = "4", features = ["derive"] }
console-subscriber = "*"
env_logger = "*"
log = "0.4"
openssl = "0.10"
paho-mqtt = "*"
prometheus = "*"
tikv-jemallocator = "*"
tokio = { version = "1", features = ["full"] }
