[package]
name = "lifewall"
version = "0.1.0"
edition = "2021"
publish = false

[dependencies]
rand = "0.8"
servicepoint2 = "*"
crossterm = "*"
clap = { version = "4", features = ["derive"] }
env_logger = "*"
log = "*"
