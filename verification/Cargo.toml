[package]
name = "node_agent"
version = "0.1.0"
edition = "2021"
publish = false

[dependencies]
sysinfo = "0.33"
serde = { version = "1", features = ["derive"] }
serde_json = "1"
tokio = { version = "1", features = ["full"] }
tokio-tungstenite = { version = "0.24", features = ["rustls-tls-webpki-roots"] }
futures-util = { version = "0.3", features = ["sink"] }
machine-uid = "0.5"
nvml-wrapper = "0.10"
wmi = "0.14"
winapi = { version = "0.3", features = ["winnt", "libloaderapi"] }
