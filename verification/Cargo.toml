[package]
name = "dotfiles_rs"
version = "0.1.0"
edition = "2021"
publish = false

[dependencies]
anyhow = "1"
clap = { version = "4", features = ["derive"] }
dirs = "5"
glob = "0.3"
serde = { version = "1", features = ["derive"] }
termcolor = "1"
thiserror = "1"
toml = "0.8"
