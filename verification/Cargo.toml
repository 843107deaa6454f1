[package]
name = "libremotestylus"
version = "0.1.0"
edition = "2021"
publish = false

[dependencies]
serde = { version = "=1.0.229", features = ["derive"] }
rmp-serde = "=1.3.1"
laminar = "=0.5.0"
crossbeam-channel = "=0.5.17"
objc = "=0.2.7"
