[package]
name = "reclaim"
version = "0.1.0"
edition = "2021"
publish = false

[dependencies]
clap = { version = "*", features = ["derive"] }
crossterm = "*"
fs_extra = "*"
open = "*"
rusty_pool = "*"
serde = { version = "*", features = ["derive"] }
serde_yaml = "*"
unicode-width = "*"
