[package]
name = "termchat"
version = "0.1.0"
edition = "2021"
publish = false

[dependencies]
anyhow = "1"
crossterm = "0.25"
ron = "*"
serde = { version = "1", features = ["derive"] }
tdlib = "*"
tokio = { version = "1", features = ["rt-multi-thread", "macros", "sync", "time"] }
tui = "0.19"
