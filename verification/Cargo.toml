[package]
name = "message_bus"
version = "0.1.0"
edition = "2021"
publish = false

[dependencies]
strum = "*"
strum_macros = "*"
tokio = { version = "1", features = ["macros", "rt-multi-thread", "sync", "time"] }
