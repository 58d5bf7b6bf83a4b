[package]
name = "dispatcher"
version = "0.1.0"
edition = "2021"
publish = false

[dependencies]
regex = "=1.13.1"
grammers-client = "=0.5.0"
grammers-mtsender = "=0.5.0"
grammers-session = "=0.5.1"
grammers-tl-types = "0.5"
tokio = { version = "=1.53.2", features = ["rt", "rt-multi-thread", "macros", "signal"] }
