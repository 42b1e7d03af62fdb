[package]
name = "oafort_client"
version = "0.1.0"
edition = "2021"
publish = false

[dependencies]
bevy = { version = "0.5", default-features = false }
structopt = "0.3"
log = "0.4"
env_logger = "0.8"
