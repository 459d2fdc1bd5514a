[package]
name = "duel_engine"
version = "0.1.0"
edition = "2021"
publish = false

[dependencies]
poise = "0.6"
tokio = { version = "1", features = ["rt-multi-thread", "macros", "sync"] }
serde = { version = "1", features = ["derive"] }
serde_json = "1"
chrono = "0.4"
dotenvy = "0.15"
tracing-subscriber = "0.3"
