[package]
name = "zsh-histdb-skim"
version = "0.8.17"
edition = "2021"
publish = false

[dependencies]
chrono = "=0.4.45"
crossterm = "=0.29.0"
humantime = "=2.4.0"
rusqlite = { version = "=0.41.0", features = ["bundled"] }
skim = { version = "=5.8.0", default-features = false }
textwrap = "=0.16.4"

[dev-dependencies]
regex = "=1.13.1"
