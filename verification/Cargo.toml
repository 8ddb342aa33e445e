[package]
name = "providers"
version = "0.1.0"
edition = "2021"
publish = false

[dependencies]
clap = { version = "4", features = ["derive", "env"] }
eyre = "0.6"
k8s-openapi = { version = "0.22", features = ["latest"] }
kube = { version = "0.91", default-features = false, features = ["client"] }
tokio = { version = "1", features = ["rt", "rt-multi-thread", "time", "macros"] }
tonic = "0.12"
tracing = "0.1"
tryhard = "0.5"
