[package]
name = "komatta"
version = "0.1.0"
edition = "2021"
publish = false

[dependencies]
argon2 = "0.4"
blake3 = "1"
clap = "3.2"
flexbuffers = "2"
pqcrypto = { version = "0.16", default-features = false, features = ["pqcrypto-dilithium"] }
rand = "0.8"
serde = { version = "1", features = ["derive"] }
