[package]
name = "sports_trailing"
version = "0.1.0"
edition = "2021"
publish = false

[dependencies]
anyhow = "1"
chrono = { version = "0.4", default-features = false, features = ["std", "alloc"] }
clap = { version = "4", features = ["derive"] }
env_logger = "0.11"
log = "0.4"
rust_decimal = "1"
serde_json = "1"
tokio = { version = "1", features = ["macros", "rt-multi-thread", "time", "sync"] }
