[package]
name = "roff_bot"
version = "0.1.0"
edition = "2021"
publish = false

[dependencies]
anyhow = "=1.0.104"
chrono = "=0.4.45"
log = "=0.4.34"
mongodb = "=2.8.2"
serde = { version = "=1.0.229", features = ["derive"] }
takecell = "=0.1.1"
teloxide = { version = "=0.6.1", features = ["macros", "trace-adaptor"] }
tokio = { version = "=1.54.1", features = ["macros", "rt-multi-thread"] }
tokio-util = { version = "=0.6.10", features = ["codec"] }
