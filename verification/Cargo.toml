[package]
name = "post_pruner"
version = "0.1.0"
edition = "2021"
publish = false

[dependencies]
chrono = "*"
egg-mode = { version = "*", default-features = false, features = ["rustls"] }
futures = "*"
serde_json = "*"
tokio = { version = "*", features = ["macros", "rt", "fs", "time"] }
