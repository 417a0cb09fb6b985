[package]
name = "tracebuild"
version = "0.1.0"
edition = "2021"
publish = false

[dependencies]
rand = "=0.8.8"
tokio = { version = "=1.53.2", features = ["process", "signal", "rt-multi-thread", "macros"] }
nix = { version = "=0.31.3", features = ["signal", "process"] }
structopt = "=0.3.26"
opentelemetry = "=0.33.0"
opentelemetry_sdk = "=0.33.0"
opentelemetry-otlp = { version = "=0.33.0", features = ["grpc-tonic"] }
opentelemetry-prometheus = "=0.33.0"
prometheus = "=0.14.0"
ureq = "=2.12.1"
