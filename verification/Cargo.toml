[package]
name = "team_registry"
version = "0.1.0"
edition = "2021"
publish = false

[dependencies]
serenity = { version = "=0.10.7", features = ["unstable_discord_api"] }
tokio = { version = "=1.54.1", features = ["macros", "rt-multi-thread"] }
