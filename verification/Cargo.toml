[package]
name = "edgehog_device_runtime"
version = "0.1.0"
edition = "2021"
publish = false

[dependencies]
astarte-device-sdk = { version = "=0.9.11", default-features = false, features = ["derive"] }
async-trait = "=0.1.92"
displaydoc = "=0.2.7"
edgehog-device-forwarder-proto = "=0.1.0"
env_logger = "=0.10.2"
futures = "=0.3.34"
hex = "=0.4.3"
http = "=0.2.12"
log = "=0.4.35"
petgraph = "=0.6.5"
prost = "=0.12.6"
reqwest = { version = "=0.11.27", default-features = false, features = ["stream"] }
serde = { version = "=1.0.229", features = ["derive"] }
serde_json = "=1.0.154"
tempdir = "=0.3.7"
thiserror = "=1.0.69"
tokio = { version = "=1.54.1", features = ["full"] }
tokio-stream = "=0.1.19"
tokio-tungstenite = { version = "=0.20.1", default-features = false, features = ["connect", "handshake"] }
tokio-util = "=0.7.20"
tracing = "=0.1.44"
tungstenite = { version = "=0.20.1", default-features = false, features = ["handshake"] }
url = "=2.5.8"
uuid = "=1.29.0"
