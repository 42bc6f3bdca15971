[package]
name = "greengrass_nucleus"
version = "0.1.0"
edition = "2021"
publish = false

[dependencies]
anyhow = "=1.0.104"
aws-config = "=1.12.0"
aws-iot-device-sdk = "=0.0.6"
aws-sdk-greengrassv2 = "=1.115.0"
aws-sdk-iot = "=1.130.0"
aws-sdk-s3 = "=1.140.0"
aws-types = "=1.6.0"
bytes = "=1.12.1"
clap = { version = "=4.6.7", features = ["derive"] }
dashmap = "=6.2.1"
once_cell = "=1.21.4"
reqwest = "=0.13.5"
rumqttc = "=0.25.1"
serde = { version = "1", features = ["derive"] }
serde_json = "=1.0.154"
serde_yaml = "=0.9.34"
tokio = { version = "=1.54.1", features = ["full"] }
tracing = "=0.1.44"
tracing-subscriber = "=0.3.23"
