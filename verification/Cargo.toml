[package]
name = "idle_timeout"
version = "0.1.0"
edition = "2021"
publish = false

[dependencies]
tokio = { version = "0.3", features = ["time"] }

[dev-dependencies]
tokio = { version = "0.3", features = ["time", "rt", "test-util"] }
