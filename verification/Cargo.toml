[package]
name = "iamb"
version = "0.0.8"
edition = "2021"
publish = false

[dependencies]
clap = { version = "4", features = ["derive"] }
matrix-sdk = { version = "0.6", default-features = false, features = ["rustls-tls"] }
modalkit = "0.0.16"
rpassword = "7"
serde_json = "1"
tokio = { version = "1", features = ["macros", "net", "rt-multi-thread", "sync", "time"] }
tracing = "0.1"
tracing-appender = "0.2"
tracing-subscriber = "0.3"
