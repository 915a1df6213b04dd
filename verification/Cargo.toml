[package]
name = "workloads"
version = "0.1.0"
edition = "2021"
publish = false

[dependencies]
# Not used directly: kube 0.16 compiles only against chrono before 0.4.20.
chrono = "=0.4.19"
http = "=0.1.21"
k8s-openapi = { version = "=0.5.1", default-features = false, features = ["v1_15"] }
kube = { version = "=0.16.1", features = ["openapi"] }
serde_json = "=1.0.154"
