[package]
name = "saber"
version = "0.1.0"
edition = "2021"
publish = false

[dependencies]
aes-gcm = "0.9"
ed25519-dalek = "1"
x25519-dalek = "1"
hkdf = "0.11"
sha2 = "0.9"
rand = "0.7"
tokio = { version = "1", features = ["rt-multi-thread", "sync", "time"] }
uuid = { version = "1", features = ["v4"] }
pyo3 = "0.20"
