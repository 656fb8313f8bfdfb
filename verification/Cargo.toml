[package]
name = "retry_policy"
version = "0.1.0"
edition = "2021"
publish = false

[dependencies]
chrono = { version = "0.4", default-features = false, features = ["clock"] }
futures-util = { version = "0.3", default-features = false }
http = "1"
hyper-util = { version = "0.1", features = ["client-legacy", "http1"] }
tokio = { version = "1", features = ["time"] }
tower = { version = "0.5", features = ["retry"] }
