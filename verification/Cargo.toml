[package]
name = "rsstui"
version = "0.1.0"
edition = "2021"
publish = false

[dependencies]
anyhow = "1"
chrono = "0.4"
crossterm = { version = "0.28", features = ["event-stream"] }
dotenvy = "0.15"
feed-rs = "2"
futures = "0.3"
htmd = "0.1"
open = "5"
pulldown-cmark = { version = "0.9", default-features = false }
ratatui = "0.29"
reqwest = { version = "0.12", default-features = false, features = ["rustls-tls"] }
serde = { version = "1", features = ["derive"] }
serde_json = "1"
thiserror = "1"
tokio = { version = "1", features = ["macros", "rt-multi-thread", "sync", "time"] }
tracing = "0.1"
tracing-subscriber = { version = "0.3", features = ["env-filter", "fmt"] }
