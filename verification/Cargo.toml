[package]
name = "gitui_core"
version = "0.1.0"
edition = "2021"
publish = false

[dependencies]
crossbeam-channel = "*"
git2 = { version = "*", default-features = false }
rayon-core = "*"
clap = "*"
dirs = "*"
serde = { version = "*", features = ["derive"] }
ron = "*"
crossterm = { version = "*", features = ["serde"] }
log = "*"
simplelog = "*"
scopeguard = "*"
backtrace = "*"
