[package]
name = "rackhost"
version = "0.1.0"
edition = "2021"
publish = false

[dependencies]
scraper = "=0.29.0"
serde_json = "=1.0.154"
rusty-money = "=0.5.1"
reqwest = { version = "=0.13.5", default-features = false, features = ["cookies", "form", "rustls"] }
reqwest-middleware = { version = "=0.5.2", features = ["form"] }
reqwest-ratelimit = "=0.5.0"
tokio = { version = "=1.54.1", features = ["time", "sync"] }
anyhow = "=1.0.104"
