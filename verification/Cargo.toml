[package]
name = "spomo"
version = "0.1.0"
edition = "2021"
publish = false

[dependencies]
chrono = "0.4"
error-stack = "*"
ratatui = "0.29"
rodio = "0.21"
thiserror = "2"

[dev-dependencies]
regex = "1"
