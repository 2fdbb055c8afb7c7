[package]
name = "keypost"
version = "0.1.0"
edition = "2021"
publish = false

[dependencies]
opaque-ke = "=3.0.0"
p256 = { version = "=0.13.2", features = ["hash2curve", "voprf"] }
base64 = "=0.13.1"
chacha20poly1305 = "=0.9.1"
sha2 = "=0.10.9"
pkce = "=0.2.0"
rand = "=0.8.8"
