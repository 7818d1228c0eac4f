[package]
name = "egalax_rs"
version = "0.1.0"
edition = "2021"
publish = false

[dependencies]
serde = { version = "*", features = ["derive"] }
toml = "*"
anyhow = "*"
log = "*"
env_logger = "*"
xdg = "*"
evdev-rs = "*"
xrandr = "*"
input-linux = "*"
