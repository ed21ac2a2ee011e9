[package]
name = "gpcl"
version = "0.1.0"
edition = "2021"
publish = false

[dependencies]
chrono = "*"
gilrs = "*"
toml = "*"
serde = "*"
serde_derive = "*"
xdg = "*"
hex_color = "*"
log = "*"
env_logger = "*"
