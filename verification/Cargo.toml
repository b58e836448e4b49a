[package]
name = "extproc_loadtest"
version = "0.1.0"
edition = "2021"
publish = false

[dependencies]
base64 = "*"
clap = { version = "*", features = ["derive"] }
futures = "*"
indicatif = "*"
prost = "*"
serde = { version = "*", features = ["derive"] }
serde_json = "*"
thiserror = "*"
tokio = { version = "*", features = ["full"] }
tokio-stream = "*"
tokio-util = "*"
tonic = "*"
tonic-prost = "*"
zstd = "*"
