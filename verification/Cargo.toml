[package]
name = "oidar"
version = "0.1.0"
edition = "2021"
publish = false

[dependencies]
anyhow = "1"
bytes = "1"
easy-repl = "0.2"
env_logger = "0.11"
log = "0.4"
reqwest = { version = "0.12", default-features = false, features = ["rustls-tls"] }
symphonia = { version = "0.5", default-features = false, features = ["mp3"] }
tokio = { version = "1", features = ["rt", "sync", "net"] }
url = "2"
