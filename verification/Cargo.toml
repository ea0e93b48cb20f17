[package]
name = "namebot"
version = "0.1.0"
edition = "2021"
publish = false

[dependencies]
serenity = "*"
tokio = { version = "*", features = ["macros", "rt-multi-thread"] }
