[package]
name = "nym_updater"
version = "0.1.0"
edition = "2021"
publish = false

[dependencies]
chrono = "*"
cmd_lib = "*"
inquire = "*"
reqwest = { version = "*", default-features = false, features = ["json"] }
serde = { version = "*", features = ["derive"] }
serde_json = "*"
tokio = { version = "*", features = ["macros", "rt-multi-thread", "time"] }
tracing = "*"
tracing-appender = "*"
tracing-subscriber = "*"
