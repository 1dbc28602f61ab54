[package]
name = "protocol_testbench"
version = "0.1.0"
edition = "2021"
publish = false

[dependencies]
clap = { version = "4", features = ["derive"] }
serde = { version = "1", features = ["derive"] }
serde_json = "1"
serde_yaml = "0.8"
mongodb = "2"
tokio = { version = "1", features = ["rt-multi-thread"] }
rumqttc = "0.24"
uuid = { version = "1", features = ["v4"] }
