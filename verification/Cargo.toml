[package]
name = "pixi_generator"
version = "0.1.0"
edition = "2021"
publish = false

[dependencies]
tera = "*"
toml = "*"
serde = { version = "*", features = ["derive"] }
clap = { version = "*", features = ["derive"] }
dirs = "*"
log = "*"
env_logger = "*"
