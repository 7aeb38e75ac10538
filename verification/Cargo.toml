[package]
name = "oneclaw_runtime"
version = "0.1.0"
edition = "2021"
publish = false

[dependencies]
async-trait = "=0.1.92"
bollard = "=0.17.1"
chrono = { version = "=0.4.45", features = ["serde"] }
futures-util = "=0.3.34"
k8s-openapi = { version = "=0.23.0", features = ["latest"] }
kube = { version = "=0.96.0", default-features = false, features = ["client", "rustls-tls"] }
reqwest = { version = "=0.12.28", default-features = false, features = ["rustls-tls-native-roots"] }
serde = { version = "=1.0.229", features = ["derive"] }
serde_json = "=1.0.154"
thiserror = "=1.0.69"
tracing = "=0.1.44"
uuid = { version = "=1.29.0", features = ["v4", "serde"] }
