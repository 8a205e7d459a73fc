[package]
name = "arx"
version = "0.1.0"
edition = "2021"
publish = false

[dependencies]
chrono = { version = "0.4", features = ["serde"] }
clap = { version = "4", features = ["derive"] }
cli-clipboard = "0.4"
comfy-table = "7"
directories = "5"
open = "5"
serde = { version = "1", features = ["derive"] }
serde_json = "1"
sublime_fuzzy = "0.7"
terminal-link = "0.1"
thiserror = "1"
toml = "0.8"
