[package]
name = "callbridge"
version = "0.1.0"
edition = "2021"
publish = false

[dependencies]
oneshot = "0.1"
anyhow = "1"
napi = { version = "2", features = ["napi4", "tokio_rt"] }
napi-derive = "2"
