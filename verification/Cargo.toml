[package]
name = "brutus"
version = "0.1.0"
edition = "2021"
publish = false

[dependencies]
anyhow = "=1.0.104"
capnp = "=0.27.3"
log = "=0.4.35"
log-panics = "=2.1.0"
mio = { version = "=0.8.11", features = ["os-ext", "os-poll"] }
nix = { version = "=0.29.0", features = ["fs", "process", "term", "user"] }
simple_logger = "=5.2.0"
simplelog = "=0.12.2"
termion = "=4.0.6"
tokio = { version = "=1.54.1", features = ["net", "process", "io-util", "rt"] }
