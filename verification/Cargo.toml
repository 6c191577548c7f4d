[package]
name = "nekkobot"
version = "0.1.0"
edition = "2021"
publish = false

[dependencies]
chrono = "0.4"
humantime = "2"
serde = { version = "1", features = ["derive"] }
serenity = "0.10"
diesel = { version = "1.4", features = ["postgres", "r2d2"] }
reqwest = { version = "0.11", features = ["json"] }
tokio = { version = "1", features = ["macros", "rt-multi-thread", "signal"] }
tracing = "0.1"
tracing-subscriber = "0.2"
dotenv = "0.15"
