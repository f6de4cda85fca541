[package]
name = "penguin"
version = "0.1.0"
edition = "2021"
publish = false

[dependencies]
async-trait = "0.1"
chacha20poly1305 = "*"
clap = { version = "4", features = ["derive"] }
nix = { version = "*", features = ["user"] }
opentelemetry = "*"
opentelemetry-appender-tracing = "*"
opentelemetry-otlp = { version = "*", features = ["grpc-tonic"] }
opentelemetry_sdk = "*"
prometheus = { version = "0.14", features = ["process"] }
rand = "0.9"
thiserror = "2"
tokio = { version = "1", features = ["full"] }
tonic = "*"
tonic-health = "*"
tracing = "0.1"
tracing-opentelemetry = "*"
tracing-subscriber = { version = "0.3", features = ["json"] }
