[package]
name = "actix_mqtt_client"
version = "0.1.0"
edition = "2021"
publish = false

[dependencies]
mqtt-protocol = { version = "=0.11.2", features = ["tokio"] }
rand = "=0.7.3"
actix = "0.13"
futures = "=0.3.34"
tokio = { version = "1", features = ["io-util", "net", "time", "rt", "macros"] }
log = "=0.4.35"
lazy_static = "=1.5.1"
