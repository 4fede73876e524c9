[package]
name = "discord_interaction"
version = "0.1.0"
edition = "2021"
publish = false

[dependencies]
lambda_http = "*"
serde = "1"
serde_json = "1"
tokio = { version = "1", features = ["macros", "rt-multi-thread"] }
