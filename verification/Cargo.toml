[package]
name = "forcedmode"
version = "0.1.0"
edition = "2021"
publish = false

[dependencies]
actix-request-identifier = "4"
actix-web = { version = "4", default-features = false, features = ["macros"] }
anyhow = "1"
tokio = { version = "1", features = ["macros", "rt-multi-thread", "sync", "time"] }
tracing = "0.1"
tracing-subscriber = "0.3"
