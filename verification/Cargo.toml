[package]
name = "r_tvui"
version = "3.1.0"
edition = "2021"
publish = false

[dependencies]
dirs = "*"
shellexpand = "*"
serde = { version = "*", features = ["derive"] }
toml = "*"
config = { version = "*", default-features = false, features = ["toml"] }
clap = { version = "*", features = ["derive"] }
crossterm = "*"
ratatui = "*"
tokio = { version = "*", features = ["rt-multi-thread", "sync"] }
arboard = { version = "*", default-features = false }
trash = "*"
chrono = "*"
