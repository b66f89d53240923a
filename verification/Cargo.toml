[package]
name = "rusnel"
version = "0.1.0"
edition = "2021"
publish = false

[dependencies]
futures = "0.3"
rustls = { version = "0.23", default-features = false, features = ["ring", "std"] }
serde = { version = "1", features = ["derive"] }
tokio = { version = "1", features = ["rt", "rt-multi-thread", "sync", "time"] }
