[package]
name = "pqc-vault"
version = "0.13.0"
edition = "2021"
publish = false

[dependencies]
pqcrypto-kyber = "=0.8.1"
pqcrypto-dilithium = "=0.4.6"
pqcrypto-traits = "=0.3.5"
zeroize = "=1.9.1"
subtle = "=2.6.1"
hex = "=0.4.3"
base64 = "=0.22.1"
aes-gcm = "=0.10.3"
argon2 = "=0.5.3"
rand = "=0.8.8"
x25519-dalek = { version = "=2.0.1", features = ["static_secrets"] }
hkdf = "=0.12.4"
sha2 = "=0.10.9"
serde = { version = "=1.0.229", features = ["derive"] }
serde_json = "=1.0.154"
clap = { version = "=4.6.7", features = ["derive"] }
rpassword = "=7.5.4"
