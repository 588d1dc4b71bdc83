[package]
name = "noxy_sdk"
version = "0.1.0"
edition = "2021"
publish = false

[dependencies]
aes-gcm = "0.10"
hkdf = "0.12"
sha2 = "0.10"
rand = "0.8"
pqcrypto-kyber = "0.8"
pqcrypto-traits = "0.3"
uuid = { version = "1", features = ["v4"] }
serde = { version = "1", features = ["derive"] }
serde_json = "1"
tokio = { version = "1", features = ["rt-multi-thread", "macros", "time"] }
tonic = { version = "0.12", features = ["tls", "tls-webpki-roots"] }
prost = "0.13"
