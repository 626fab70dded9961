[package]
name = "adapters_launcher"
version = "0.1.0"
edition = "2021"
publish = false

[dependencies]
ctrlc = "3"
log = "0.4"
pretty_env_logger = "0.5"
serde = { version = "1", features = ["derive"] }
serde_yaml = "0.9"
tokio = { version = "1", features = ["process", "macros", "rt-multi-thread"] }
