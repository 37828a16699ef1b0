[package]
name = "dockers"
version = "0.1.0"
edition = "2021"
publish = false

[dependencies]
axum = { version = "0.6", features = ["multipart"] }
bollard = "0.14"
config = "0.13"
flate2 = "1"
futures-util = "0.3"
http = "0.2"
serde = { version = "1", features = ["derive"] }
serde_json = "1"
tar = "0.4"
time = { version = "0.3", features = ["macros"] }
tokio = { version = "1", features = ["full"] }
tower = "0.4"
tracing = "0.1"
tracing-appender = "0.2"
tracing-subscriber = { version = "0.3", features = ["env-filter", "time", "local-time"] }
