[package]
name = "sunny_bot"
version = "0.1.0"
edition = "2021"
publish = false

[dependencies]
serenity = "0.10"
songbird = { version = "0.2", features = ["builtin-queue"] }
tokio = { version = "1", features = ["macros", "rt-multi-thread"] }
dotenv = "0.15"
