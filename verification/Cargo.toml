[package]
name = "ntex-mqtt"
version = "0.1.0"
edition = "2021"
publish = false

[dependencies]
ntex = { version = "=0.3.18", default-features = false }
futures = "=0.3.34"
log = "=0.4.34"
mio = { version = "=0.7.14", features = ["os-poll", "net"] }
