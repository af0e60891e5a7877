[package]
name = "mqtt_healthcheck"
version = "0.1.0"
edition = "2021"
publish = false

[dependencies]
clap = "*"
paho-mqtt = { version = "*", default-features = false, features = ["bundled"] }
tokio = { version = "*", features = ["rt-multi-thread", "macros", "time"] }
tokio-stream = "*"
