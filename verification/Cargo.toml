[package]
name = "support-bundle-viewer"
version = "0.1.0"
edition = "2021"
publish = false

[dependencies]
anyhow = "1"
async-trait = "0.1"
bytes = "1"
camino = "1"
crossterm = "0.28"
ratatui = "0.29"
tokio = { version = "1", features = ["io-std", "io-util", "time"] }
zip = { version = "*", default-features = false, features = ["deflate"] }
