[package]
name = "cserun"
version = "0.1.0"
edition = "2021"
publish = false

[dependencies]
chrono = "*"
clap = { version = "*", features = ["derive"] }
console = "*"
dirs = "*"
ignore = "*"
indicatif = "*"
rpassword = "*"
serde = { version = "*", features = ["derive"] }
ssh2 = "*"
toml = "*"
