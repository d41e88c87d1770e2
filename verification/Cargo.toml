[package]
name = "meetily_diarization"
version = "0.1.0"
edition = "2021"
publish = false

[dependencies]
anyhow = "=1.0.104"
bzip2-rs = "=0.1.2"
chrono = "=0.4.45"
futures-util = "=0.3.34"
log = "=0.4.35"
reqwest = { version = "=0.12.28", default-features = false, features = ["stream", "rustls-tls"] }
serde = { version = "=1.0.229", features = ["derive"] }
serde_json = "=1.0.154"
sherpa-onnx = "=1.13.8"
sqlx = { version = "=0.8.6", default-features = false, features = ["sqlite", "runtime-tokio", "macros"] }
tar = "=0.4.46"
tokio = { version = "=1.54.1", features = ["sync", "fs", "io-util", "rt", "rt-multi-thread", "time", "macros"] }
