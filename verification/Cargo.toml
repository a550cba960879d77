[package]
name = "synth-8080"
version = "0.1.0"
edition = "2021"
publish = false

[dependencies]
dot-writer = "=0.1.4"
serde = { version = "=1.0.229", features = ["derive"] }
serde_cbor = "=0.11.2"
crossbeam-channel = "=0.5.17"
rodio = { version = "=0.20.1", default-features = false }
twang = "=0.9.0"
fon = "=0.6.0"
fundsp = { version = "=0.23.0", default-features = false, features = ["std"] }
