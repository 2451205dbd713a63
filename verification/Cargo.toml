[package]
name = "prbot"
version = "0.1.0"
edition = "2021"
publish = false

[dependencies]
url = "=2.5.8"
serenity = "=0.10.10"
octocrab = "=0.47.1"
tokio = { version = "=1.53.2", features = ["full"] }
parking_lot = "=0.12.5"
tracing = "=0.1.44"
tracing-subscriber = { version = "=0.3.23", features = ["env-filter"] }
tracing-appender = "=0.2.5"
