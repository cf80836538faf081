[package]
name = "zplugin_dds"
version = "0.1.0"
edition = "2021"
publish = false

[dependencies]
regex = "=1.13.1"
yaml-rust = "=0.4.5"
log = "=0.4.34"
clap = "=2.34.0"
env_logger = "=0.11.11"
futures = "=0.3.34"
async-std = "=1.13.2"
cdr = "=0.2.4"
serde = { version = "=1.0.229", features = ["derive"] }
zenoh = { version = "=1.10.1", default-features = false }
cyclors = "=0.4.0"
gstreamer = "0.16"
gstreamer-app = "0.16"
