[package]
name = "obs_twitch_dashboard"
version = "0.1.0"
edition = "2021"
publish = false

[dependencies]
url = "1"
serde = "1"
serde_derive = "1"
serde_json = "1"
hyper = "0.10"
open = "*"
libc = "0.2"
log = "0.4"
env_logger = "*"
