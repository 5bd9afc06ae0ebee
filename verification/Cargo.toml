[package]
name = "sweetch_bot"
version = "0.1.0"
edition = "2021"
publish = false

[dependencies]
anyhow = "=1.0.104"
clokwerk = "*"
daemonize = "*"
dirs = "=7.0.0"
serde = { version = "=1.0.229", features = ["derive"] }
toml = "=1.1.7"
ureq = { version = "=3.4.2", default-features = false, features = ["json"] }
