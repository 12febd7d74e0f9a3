[package]
name = "auraed"
version = "0.1.0"
edition = "2021"
publish = false

[dependencies]
anyhow = "1"
libcontainer = "*"
nix = { version = "=0.29.0", features = ["process", "signal", "user"] }
process-wrap = { version = "=8.2.2", features = ["tokio1"] }
tokio = { version = "=1.54.1", features = ["process", "io-util", "rt", "macros", "sync"] }
tonic = { version = "*", default-features = false }
tracing = "=0.1.44"
