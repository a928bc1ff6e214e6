[package]
name = "sericom_core"
version = "0.3.0"
edition = "2021"
publish = false

[dependencies]
chrono = "0.4"
clap = { version = "4", features = ["derive"] }
crossterm = { version = "0.29", features = ["osc52"] }
miette = { version = "7", features = ["fancy"] }
serde = { version = "1", features = ["derive"] }
serial2-tokio = "0.1"
thiserror = "2"
tokio = { version = "1", features = ["full"] }
toml = "0.8"
tracing = "0.1"
tracing-appender = "0.2"
tracing-subscriber = "0.3"
