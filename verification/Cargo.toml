[package]
name = "user_store"
version = "0.1.0"
edition = "2021"
publish = false

[dependencies]
chrono = { version = "=0.4.45", features = ["serde"] }
num_cpus = "=1.17.0"
actix-web = "=4.15.0"
serde = { version = "=1.0.229", features = ["derive"] }
tokio = { version = "=1.53.2", features = ["macros", "rt-multi-thread"] }
env_logger = "=0.11.11"
