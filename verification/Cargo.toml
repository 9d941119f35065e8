[package]
name = "loth"
version = "0.1.0"
edition = "2021"
publish = false

[dependencies]
arc-swap = "1"
cedar-policy = "4"
chrono = "0.4"
prost = "0.14"
thiserror = "2"
tokio = { version = "1", features = ["macros", "rt", "sync", "time"] }
tokio-stream = "0.1"
tonic = "0.14"
tonic-prost = "0.14"
tracing = "0.1"
