[package]
name = "nacos_grpc"
version = "0.1.0"
edition = "2021"
publish = false

[dependencies]
actix = "0.13"
anyhow = "1"
log = "0.4"
prost = "0.13"
serde = { version = "1", features = ["derive"] }
serde_json = "1"
tokio = { version = "1", features = ["rt", "sync", "time"] }
tokio-stream = "0.1"
tonic = { version = "0.12", default-features = false, features = ["channel", "codegen", "prost"] }
