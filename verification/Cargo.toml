[package]
name = "chess_chat"
version = "0.1.0"
edition = "2021"
publish = false

[dependencies]
pleco = "=0.5.0"
serenity = { version = "=0.11.7", features = ["collector"] }
tokio = { version = "=1.53.2", features = ["macros", "rt-multi-thread"] }
