[package]
name = "j1407b"
version = "0.1.0"
edition = "2021"
publish = false

[dependencies]
rust-fr = "*"
nix = { version = "*", features = ["socket", "uio", "fs", "process", "user"] }
serde = { version = "*", features = ["derive"] }
toml = "*"
thiserror = "*"
clap = { version = "*", features = ["derive"] }
