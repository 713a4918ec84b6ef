[package]
name = "valkey_glide"
version = "0.1.0"
edition = "2021"
publish = false

[dependencies]
bytes = "=1.12.1"
glide-core = "=0.1.1"
glide-core-engine = { version = "=0.1.1", default-features = false }
magnus = "=0.7.1"
protobuf = "=3.7.2"
tokio = { version = "=1.54.1", features = ["rt"] }
