[package]
name = "remotefs_kube"
version = "0.1.0"
edition = "2021"
publish = false

[dependencies]
tar = "=0.4.46"
remotefs = "=0.3.1"
kube = { version = "=4.2.0", features = ["ws"] }
k8s-openapi = { version = "=0.28.0", features = ["latest"] }
tokio = { version = "=1.53.2", features = ["rt", "fs", "io-util"] }
tokio-util = { version = "=0.7.19", features = ["io"] }
futures-util = "=0.3.34"
tempfile = "=3.27.0"
