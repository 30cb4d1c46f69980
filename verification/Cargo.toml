[package]
name = "crypter"
version = "0.1.0"
edition = "2021"
publish = false

[dependencies]
aes = "0.8"
aes-gcm = "0.10"
aes-gcm-siv = "0.11"
chacha20poly1305 = "0.10"
cipher = "0.4"
ctr = "0.9"
generic-array = "0.14"

[dev-dependencies]
rand = "0.8"
