[package]
name = "versioning_grpc"
version = "0.1.0"
edition = "2021"
publish = false

[dependencies]
anyhow = "1"
http = "0.2"
prost = "0.12"
tokio = { version = "1", features = ["rt-multi-thread", "macros", "time"] }
tonic = "0.11"
