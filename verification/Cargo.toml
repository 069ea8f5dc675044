[package]
name = "delivery_cli"
version = "0.1.0"
edition = "2021"
publish = false

[dependencies]
time = "0.1"
docopt = "1"
serde = { version = "1", features = ["derive"] }
log = "0.4"
env_logger = "0.9"
