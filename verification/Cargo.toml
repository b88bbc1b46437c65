[package]
name = "mbr"
version = "0.1.0"
edition = "2021"
publish = false

[dependencies]
unicode-width = "*"
serde_json = "*"
indexmap = { version = "*", features = ["serde"] }
comfy-table = "*"
crossterm = "*"
atty = "*"
serde = { version = "*", features = ["derive"] }
clap = { version = "*", features = ["derive"] }
tokio = { version = "*", features = ["rt-multi-thread", "macros", "sync", "time"] }
reqwest = { version = "*", default-features = false, features = ["json", "rustls-tls"] }
ratatui = "*"
toml = "*"
dirs = "*"
rpassword = "*"
arboard = "*"
thiserror = "*"
