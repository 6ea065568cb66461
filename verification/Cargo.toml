[package]
name = "soundboard"
version = "0.1.0"
edition = "2021"
publish = false

[dependencies]
serenity = "0.11"
songbird = "0.3"
tokio = { version = "1", features = ["macros", "rt-multi-thread"] }
futures = "0.3"
async-std = "1"
tracing-subscriber = "0.3"
