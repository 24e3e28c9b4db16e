[package]
name = "glide_core"
version = "0.1.0"
edition = "2021"
publish = false

[dependencies]
redis = { version = "*", features = ["cluster-async", "tokio-comp"] }
tokio = { version = "*", features = ["time", "rt"] }
futures = "*"
