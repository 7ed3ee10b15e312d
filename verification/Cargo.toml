[package]
name = "evg_api"
version = "0.1.0"
edition = "2021"
publish = false

[dependencies]
async-stream = "*"
async-trait = "*"
chrono = { version = "*", features = ["serde"] }
futures = "*"
reqwest = { version = "*", default-features = false, features = ["json", "stream"] }
serde = { version = "*", features = ["derive"] }
serde_yaml = "*"
tokio = { version = "*", features = ["macros", "rt-multi-thread"] }
