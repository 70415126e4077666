[package]
name = "cs_core"
version = "0.1.0"
edition = "2021"
publish = false

[dependencies]
hkdf = "0.12"
sha2 = "0.10"
aes-kw = "0.2"
chacha20poly1305 = "0.10"
aes-gcm = "0.10"
blake3 = "1"
hex = "0.4"
rand = "0.8"
zstd = "0.13"
uuid = { version = "1", features = ["v7", "serde"] }
ciborium = "0.2"
serde = { version = "1", features = ["derive"] }
serde_json = "1"
serde_bytes = "0.11"
thiserror = "1"
zeroize = "1"
rusqlite = { version = "0.32", features = ["bundled"] }
