[package]
name = "internal_bus"
version = "0.1.0"
edition = "2021"
publish = false

[dependencies]
rand_core = "=0.6.4"
embassy-futures = "=0.1.2"
embassy-net-driver-channel = "=0.4.0"
embassy-time = "=0.5.1"
log = "0.4"
tokio = { version = "1", default-features = false, features = ["sync", "time", "rt", "macros"] }
