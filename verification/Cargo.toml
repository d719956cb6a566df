[package]
name = "serviceworkerjob"
version = "0.1.0"
edition = "2021"
publish = false

[dependencies]
url = "=1.7.2"
hyper = { version = "=0.10.16", default-features = false }
mime = "=0.2.6"
ipc-channel = "=0.18.3"
serde = { version = "=1.0.229", features = ["derive"] }
log = "=0.4.35"
