[package]
name = "client_sdk_generator"
version = "0.1.0"
edition = "2021"
publish = false

[dependencies]
anyhow = "1"
clap = { version = "4", features = ["derive"] }
handlebars = "4"
openapiv3 = "2"
serde = { version = "1", features = ["derive"] }
serde_json = "1"
serde_yaml = "0.9"
tokio = { version = "1", features = ["fs", "macros", "process", "rt-multi-thread"] }
tracing = "0.1"
tracing-subscriber = "0.3"
walkdir = "2"
