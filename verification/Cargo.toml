[package]
name = "chatgpt_client"
version = "0.1.0"
edition = "2021"
publish = false

[dependencies]
anyhow = "1"
dirs = "5"
futures-util = "0.3"
lazy_static = "1"
log = "0.4"
r2d2 = "0.8"
reqwest = { version = "0.11", features = ["json", "socks"] }
reqwest-eventsource = "0.4"
rusqlite = "0.29"
serde = { version = "1", features = ["derive"] }
serde_json = "1"
simplelog = "0.12"
time = { version = "0.3", features = ["local-offset"] }
tokio = { version = "1", features = ["fs", "io-util", "macros", "rt-multi-thread"] }
toml = "0.7"
url = "2"
