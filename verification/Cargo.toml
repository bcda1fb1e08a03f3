[package]
name = "voxlink"
version = "0.1.0"
edition = "2021"
publish = false

[dependencies]
ringbuf = "0.4"
rubato = "0.14"
cpal = "0.15"
tokio = { version = "1", features = ["rt-multi-thread", "time", "sync"] }
anyhow = "1"
log = "0.4"
env_logger = "*"
core-graphics = "*"
core-foundation = "*"
