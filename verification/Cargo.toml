[package]
name = "smyklot"
version = "0.1.0"
edition = "2021"
publish = false

[dependencies]
env_logger = "0.8"
log = "0.4"
maplit = "1"
serde_json = "1"
serenity = "0.10"
tokio = { version = "1", features = ["macros", "rt-multi-thread"] }
