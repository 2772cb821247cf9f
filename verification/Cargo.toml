[package]
name = "launcher_installer"
version = "0.1.0"
edition = "2021"
publish = false

[dependencies]
dirs = "5"
regex = "1"
reqwest = { version = "0.12", features = ["blocking"] }
