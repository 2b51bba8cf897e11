[package]
name = "ecies_handshake"
version = "0.1.0"
edition = "2021"
publish = false

[dependencies]
aes = "0.8"
ctr = "0.9"
concat-kdf = "0.1"
hmac = "0.12"
rlp = "0.5"
secp256k1 = { version = "0.27", features = ["rand-std", "global-context"] }
sha2 = "0.10"
