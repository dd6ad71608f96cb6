[package]
name = "mac_updater"
version = "0.1.0"
edition = "2021"
publish = false

[dependencies]
anyhow = "*"
chrono = "*"
clap = { version = "*", features = ["derive"] }
config = "*"
console = "*"
dialoguer = "*"
dirs = "*"
flexi_logger = "*"
indicatif = "*"
log = "*"
notify-rust = "*"
serde = { version = "*", features = ["derive"] }
tokio = { version = "*", features = ["rt-multi-thread", "macros", "process", "time"] }
tracing = "*"
tracing-appender = "*"
tracing-subscriber = "*"
