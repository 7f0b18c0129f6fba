[package]
name = "bmrng"
version = "0.5.2"
edition = "2021"

[dependencies]
futures-core = "=0.3.34"
tokio = { version = "=1.54.1", features = ["sync", "time"] }

[dev-dependencies]
tokio = { version = "=1.54.1", features = ["rt", "sync", "time"] }
