[package]
name = "knr_bootstrap"
version = "0.1.0"
edition = "2021"
publish = false

[dependencies]
anyhow = "1"
clap = { version = "4", features = ["derive"] }
reqwest = { version = "0.12", default-features = false, features = ["rustls-tls"] }
tempfile = "3"
tokio = { version = "1", features = ["macros", "rt-multi-thread", "process", "io-util", "time"] }
