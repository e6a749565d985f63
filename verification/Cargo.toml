[package]
name = "spotix"
version = "0.1.0"
edition = "2021"
publish = false

[dependencies]
crossbeam-channel = "*"
image = "*"
serde = { version = "*", features = ["derive"] }
serde_json = "*"
ureq = "*"
artem = "*"
open = "*"
log = "*"
env_logger = "*"
