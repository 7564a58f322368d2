[package]
name = "raidprotect"
version = "0.1.0"
edition = "2021"
publish = false

[dependencies]
anyhow = "1"
figment = { version = "0.10", features = ["toml", "env"] }
futures = "0.3"
nanoid = "0.4"
once_cell = "1"
serde = { version = "1", features = ["derive"] }
thiserror = "1"
tokio = { version = "1", features = ["rt-multi-thread", "macros", "sync", "signal", "time"] }
tracing = "0.1"
twilight-gateway = "0.11"
twilight-http = "0.11"
twilight-interactions = "0.11"
twilight-model = "0.11"
twilight-util = { version = "0.11", features = ["builder", "snowflake"] }
twilight-validate = "0.11"
