[package]
name = "distro-pioneer"
version = "0.1.0"
edition = "2021"
publish = false

[dependencies]
anyhow = "1"
chrono = "0.4"
clap = { version = "4", features = ["derive"] }
dirs = "*"
env_logger = "*"
log = "0.4"
serde = { version = "1", features = ["derive"] }
tempfile = "3"
toml = { version = "*", features = ["preserve_order"] }
which = "*"

[dev-dependencies]
regex = "1"
