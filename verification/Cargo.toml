[package]
name = "nanotdf_kas"
version = "0.1.0"
edition = "2021"
publish = false

[dependencies]
aes-gcm = "0.10"
x25519-dalek = "2"
sha2 = "0.10"
rand = "0.8"
p256 = "0.13"
pem = "3"
hex = "0.4"
futures-util = "0.3"
tokio = { version = "1", features = ["full"] }
tokio-tungstenite = "0.21"
