[package]
name = "afrim-wish"
version = "0.1.0"
edition = "2021"
publish = false

[dependencies]
afrim = "*"
afrish = "*"
anyhow = "1"
clap = { version = "4", features = ["derive"] }
rstk = "*"
serde = { version = "1", features = ["derive"] }
toml = "0.8"
