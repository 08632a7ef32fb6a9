[package]
name = "oopsla2024_benchmarks"
version = "0.1.0"
edition = "2021"
publish = false

[dependencies]
cedar-policy-core = "*"
clap = { version = "4", features = ["derive"] }
env_logger = "*"
log = "0.4"
serde = { version = "1", features = ["derive"] }
serde_json = "1"
smol_str = "*"
