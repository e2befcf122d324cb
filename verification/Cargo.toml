[package]
name = "gem"
version = "0.1.0"
edition = "2021"
publish = false

[dependencies]
crossterm = "*"
native-tls = "*"
ratatui = "*"
regex = "*"
serde = { version = "*", features = ["derive"] }
toml = "*"
url = "*"
